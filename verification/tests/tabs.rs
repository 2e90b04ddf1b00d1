use term_engine::explorer::ExplorerViewItem;
use term_engine::remote::{ConnectionState, RemoteTerminalView, SshAuthMethod, SshConfig};
use term_engine::size::TerminalSize;
use term_engine::tabs::{TabKind, TabManager};

#[test]
fn test_tab_id_generation() {
    let mut manager = TabManager::new();
    let id1 = manager.generate_tab_id();
    let id2 = manager.generate_tab_id();
    assert_ne!(id1, id2);
}

#[test]
fn test_tab_kind_default_title() {
    let kind = TabKind::Explorer {
        path: String::from("/home/user/projects"),
    };
    assert!(kind.default_title().contains("projects"));

    let kind = TabKind::Terminal {
        working_dir: String::from("/home/user"),
    };
    assert!(kind.default_title().contains("user"));

    let kind = TabKind::SshTerminal {
        host: "example.com".to_string(),
        port: 22,
        username: "admin".to_string(),
        working_dir: String::from("/home/admin"),
    };
    let title = kind.default_title();
    assert!(title.contains("example.com"));
    assert!(title.contains("admin"));
}

#[test]
fn test_tab_manager_basic() {
    let mut manager = TabManager::new();
    assert_eq!(manager.tab_count(), 0);

    let id1 = manager.add_tab(TabKind::Explorer {
        path: String::from("/tmp"),
    });
    assert_eq!(manager.tab_count(), 1);
    assert_eq!(manager.active_tab_id(), Some(id1));

    let id2 = manager.add_tab(TabKind::Terminal {
        working_dir: String::from("/home"),
    });
    assert_eq!(manager.tab_count(), 2);

    manager.activate_tab(id2);
    assert_eq!(manager.active_tab_id(), Some(id2));

    manager.close_tab(id1);
    assert_eq!(manager.tab_count(), 1);
    assert_eq!(manager.active_tab_id(), Some(id2));
}

#[test]
fn test_close_active_tab_picks_neighbour() {
    let mut manager = TabManager::new();
    let a = manager.add_tab(TabKind::Terminal { working_dir: String::from("/a") });
    let b = manager.add_tab(TabKind::Terminal { working_dir: String::from("/b") });
    let c = manager.add_tab(TabKind::Terminal { working_dir: String::from("/c") });
    manager.activate_tab(b);
    assert!(manager.close_tab(b));
    // the right neighbour becomes active
    assert_eq!(manager.active_tab_id(), Some(c));
    assert!(manager.close_tab(c));
    assert_eq!(manager.active_tab_id(), Some(a));
    assert!(manager.close_tab(a));
    assert_eq!(manager.active_tab_id(), None);
    assert!(!manager.close_tab(a));
}

#[test]
fn test_next_and_prev_tab_wrap() {
    let mut manager = TabManager::new();
    let a = manager.add_tab(TabKind::Terminal { working_dir: String::from("/a") });
    let b = manager.add_tab(TabKind::Terminal { working_dir: String::from("/b") });
    let c = manager.add_tab(TabKind::Terminal { working_dir: String::from("/c") });
    assert_eq!(manager.active_tab_id(), Some(a));
    manager.next_tab();
    assert_eq!(manager.active_tab_id(), Some(b));
    manager.next_tab();
    assert_eq!(manager.active_tab_id(), Some(c));
    manager.next_tab();
    assert_eq!(manager.active_tab_id(), Some(a));
    manager.prev_tab();
    assert_eq!(manager.active_tab_id(), Some(c));
    // the active flags follow along
    let active = manager.active_tab().unwrap();
    assert!(active.is_active);
    assert_eq!(active.id, c);
}

#[test]
fn test_update_tab_title() {
    let mut manager = TabManager::new();
    let id = manager.add_tab(TabKind::Terminal { working_dir: String::from("/w") });
    assert!(manager.update_tab_title(id, String::from("build")));
    assert_eq!(manager.get_tab(id).unwrap().title, "build");
    assert!(!manager.update_tab_title(
        term_engine::tabs::TabId(9999),
        String::from("nope")
    ));
}

#[test]
fn test_with_defaults_opens_explorer() {
    let manager = TabManager::with_defaults(Some(String::from("/home/someone")));
    assert_eq!(manager.tab_count(), 1);
    let tab = manager.active_tab().unwrap();
    assert!(matches!(tab.kind, TabKind::Explorer { .. }));
    assert!(tab.title.contains("someone"));
}

#[test]
fn test_tab_kind_flags() {
    let local = TabKind::Terminal { working_dir: String::from("/x") };
    assert!(!local.is_remote());
    assert_eq!(local.icon_name(), "terminal");
    let remote = TabKind::SftpExplorer {
        host: "h".to_string(),
        port: 22,
        username: "u".to_string(),
        remote_path: String::from("/"),
    };
    assert!(remote.is_remote());
    assert_eq!(remote.icon_name(), "sftp");
}

#[test]
fn test_ssh_config() {
    let config = SshConfig {
        host: "example.com".to_string(),
        port: 22,
        username: "test".to_string(),
        auth_method: SshAuthMethod::Password("secret".to_string()),
        working_dir: String::from("/home/test"),
    };

    assert_eq!(config.host, "example.com");
    assert_eq!(config.port, 22);
}

#[test]
fn test_connection_state() {
    let state = ConnectionState::Connected;
    assert_eq!(state, ConnectionState::Connected);
}

#[test]
fn test_remote_view_transitions() {
    let config = SshConfig {
        host: "example.com".to_string(),
        port: 22,
        username: "test".to_string(),
        auth_method: SshAuthMethod::Agent,
        working_dir: String::from("/home/test"),
    };
    let mut view = RemoteTerminalView::new(config);
    assert_eq!(view.connection_state, ConnectionState::Disconnected);
    view.connect();
    assert_eq!(view.connection_state, ConnectionState::Connecting);
    view.disconnect();
    assert_eq!(view.connection_state, ConnectionState::Disconnected);
}

#[test]
fn test_explorer_item_starts_unselected() {
    let item = ExplorerViewItem::new(
        String::from("/home/user/src"),
        String::from("src"),
        true,
        2,
        false,
    );
    assert!(!item.selected);
    assert_eq!(item.depth, 2);
    assert!(item.is_dir);
}

#[test]
fn test_terminal_size_defaults() {
    let size = TerminalSize::default_size();
    assert_eq!((size.rows, size.cols), (24, 80));
    let size = TerminalSize::new(30, 100, 640, 480);
    assert_eq!((size.rows, size.cols, size.pixel_width, size.pixel_height), (30, 100, 640, 480));
}
