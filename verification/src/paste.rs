//! Paste handling: what pasted text becomes before it is written to the
//! terminal device.

use vstd::prelude::*;

verus! {

/// `text` with every escape byte removed. An embedded escape inside a
/// bracketed paste could desynchronize the closing bracket, so none may
/// survive.
pub open spec fn spec_strip_escapes(s: Seq<u8>) -> Seq<u8>
    decreases s.len(),
{
    if s.len() == 0 {
        Seq::empty()
    } else if s[0] == 0x1b {
        spec_strip_escapes(s.skip(1))
    } else {
        seq![s[0]] + spec_strip_escapes(s.skip(1))
    }
}

/// Line endings normalized to carriage returns: each `\r\n` pair becomes
/// a single `\r`, and each remaining bare `\n` becomes `\r`. This matches
/// what terminals expect from typed input, where Enter sends `\r`.
pub open spec fn spec_normalize_newlines(s: Seq<u8>) -> Seq<u8>
    decreases s.len(),
{
    if s.len() == 0 {
        Seq::empty()
    } else if s[0] == 0x0d && s.len() >= 2 && s[1] == 0x0a {
        seq![0x0du8] + spec_normalize_newlines(s.skip(2))
    } else if s[0] == 0x0a {
        seq![0x0du8] + spec_normalize_newlines(s.skip(1))
    } else {
        seq![s[0]] + spec_normalize_newlines(s.skip(1))
    }
}

/// The opening marker of a bracketed paste: `ESC [ 200 ~`.
pub open spec fn spec_paste_open() -> Seq<u8> {
    seq![0x1bu8, 0x5bu8, 0x32u8, 0x30u8, 0x30u8, 0x7eu8]
}

/// The closing marker of a bracketed paste: `ESC [ 201 ~`.
pub open spec fn spec_paste_close() -> Seq<u8> {
    seq![0x1bu8, 0x5bu8, 0x32u8, 0x30u8, 0x31u8, 0x7eu8]
}

/// Encode pasted text for the device. With bracketed-paste mode on, the
/// payload is wrapped in the paste markers and stripped of escape bytes;
/// otherwise line endings are normalized to `\r`.
pub fn encode_paste(text: &Vec<u8>, bracketed: bool) -> (r: Vec<u8>)
    ensures
        bracketed ==> r@ == spec_paste_open() + spec_strip_escapes(text@) + spec_paste_close(),
        !bracketed ==> r@ == spec_normalize_newlines(text@),
{
    let mut out: Vec<u8> = Vec::new();
    if bracketed {
        out.push(0x1b);
        out.push(0x5b);
        out.push(0x32);
        out.push(0x30);
        out.push(0x30);
        out.push(0x7e);
        proof {
            assert(out@ =~= spec_paste_open());
            assert(text@.skip(0) =~= text@);
        }
        let mut i: usize = 0;
        while i < text.len()
            invariant
                i <= text@.len(),
                out@ + spec_strip_escapes(text@.skip(i as int)) == spec_paste_open()
                    + spec_strip_escapes(text@),
            decreases text@.len() - i,
        {
            let b = text[i];
            proof {
                assert(text@.skip(i as int)[0] == text@[i as int]);
                assert(text@.skip(i as int).skip(1) =~= text@.skip(i + 1));
            }
            if b != 0x1b {
                let ghost before = out@;
                out.push(b);
                proof {
                    assert(out@ + spec_strip_escapes(text@.skip(i + 1)) =~= before
                        + spec_strip_escapes(text@.skip(i as int)));
                }
            }
            i = i + 1;
        }
        proof {
            assert(text@.skip(text@.len() as int) =~= Seq::<u8>::empty());
            assert(out@ + Seq::<u8>::empty() =~= out@);
        }
        out.push(0x1b);
        out.push(0x5b);
        out.push(0x32);
        out.push(0x30);
        out.push(0x31);
        out.push(0x7e);
        proof {
            assert(out@ =~= spec_paste_open() + spec_strip_escapes(text@) + spec_paste_close());
        }
    } else {
        proof {
            assert(text@.skip(0) =~= text@);
        }
        let mut i: usize = 0;
        while i < text.len()
            invariant
                i <= text@.len(),
                out@ + spec_normalize_newlines(text@.skip(i as int)) == spec_normalize_newlines(
                    text@,
                ),
            decreases text@.len() - i,
        {
            let b = text[i];
            proof {
                assert(text@.skip(i as int)[0] == text@[i as int]);
                assert(text@.skip(i as int).skip(1) =~= text@.skip(i + 1));
                if i + 1 < text@.len() {
                    assert(text@.skip(i as int).skip(2) =~= text@.skip(i + 2));
                    assert(text@.skip(i as int)[1] == text@[i + 1]);
                }
            }
            let ghost before = out@;
            if b == 0x0d && i + 1 < text.len() && text[i + 1] == 0x0a {
                out.push(0x0d);
                proof {
                    assert(out@ + spec_normalize_newlines(text@.skip(i + 2)) =~= before
                        + spec_normalize_newlines(text@.skip(i as int)));
                }
                i = i + 2;
            } else if b == 0x0a {
                out.push(0x0d);
                proof {
                    assert(out@ + spec_normalize_newlines(text@.skip(i + 1)) =~= before
                        + spec_normalize_newlines(text@.skip(i as int)));
                }
                i = i + 1;
            } else {
                out.push(b);
                proof {
                    assert(out@ + spec_normalize_newlines(text@.skip(i + 1)) =~= before
                        + spec_normalize_newlines(text@.skip(i as int)));
                }
                i = i + 1;
            }
        }
        proof {
            assert(text@.skip(text@.len() as int) =~= Seq::<u8>::empty());
            assert(out@ + Seq::<u8>::empty() =~= out@);
        }
    }
    out
}

} // verus!
