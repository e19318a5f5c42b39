//! Binary version scanner: recovers a version value from the raw bytes of
//! an installed component's data file by tracking digit runs separated by
//! dots and closed by a product-specific terminator byte.
//!
//! The scanner keeps three digit buffers and a cursor selecting the buffer
//! that receives digits. A zero byte resets the run; a dot advances the
//! cursor and poisons the run once more than two dots were seen; any byte
//! outside the digit/separator set poisons the run. On the terminator a
//! correct run with three non-empty buffers, each valued at most 255,
//! decodes into a version; any other run resets and the scan continues.

use vstd::prelude::*;
use crate::text::{dec_val, is_digit, is_digits, parse_dec_u64, u64_from_dec};
use crate::version::Version;

verus! {

/// Per-product scan policy: how many leading bytes to skip, how many bytes
/// to examine after that (`None` scans to the end), and the byte that closes
/// a version run.
pub struct ScanProfile {
    pub skip: usize,
    pub window: Option<usize>,
    pub terminator: u8,
}

/// Scanner state: the three digit buffers, the cursor (capped at 3) and the
/// flag telling whether the current run is still a version candidate.
#[verifier::ext_equal]
pub ghost struct ScanState {
    pub bufs: Seq<Seq<u8>>,
    pub cursor: int,
    pub correct: bool,
}

pub open spec fn init_state() -> ScanState {
    ScanState { bufs: seq![Seq::<u8>::empty(), Seq::<u8>::empty(), Seq::<u8>::empty()], cursor: 0, correct: true }
}

/// A state whose run decodes into a version on the terminator.
pub open spec fn state_accepts(st: ScanState) -> bool {
    st.correct && st.bufs[0].len() > 0 && st.bufs[1].len() > 0 && st.bufs[2].len() > 0 && dec_val(
        st.bufs[0],
    ) <= 255 && dec_val(st.bufs[1]) <= 255 && dec_val(st.bufs[2]) <= 255
}

pub open spec fn state_version(st: ScanState) -> Version {
    Version {
        major: dec_val(st.bufs[0]) as u8,
        minor: dec_val(st.bufs[1]) as u8,
        patch: dec_val(st.bufs[2]) as u8,
    }
}

/// Cursor advance on a dot: more than two dots in one run poison it.
pub open spec fn dot_step(st: ScanState) -> ScanState {
    ScanState {
        bufs: st.bufs,
        cursor: if st.cursor < 3 { st.cursor + 1 } else { 3 },
        correct: st.correct && st.cursor < 2,
    }
}

/// Digit append to the buffer under the cursor, only while the run is
/// correct.
pub open spec fn digit_step(st: ScanState, b: u8) -> ScanState {
    if st.correct && 0 <= st.cursor < 3 {
        ScanState { bufs: st.bufs.update(st.cursor, st.bufs[st.cursor].push(b)), ..st }
    } else {
        st
    }
}

pub open spec fn poison(st: ScanState) -> ScanState {
    ScanState { correct: false, ..st }
}

/// Result of scanning `s` from position `i` onward in state `st`: the first
/// version closed by `term`, or `None` when the stream ends first.
pub open spec fn scan_from(s: Seq<u8>, i: int, st: ScanState, term: u8) -> Option<Version>
    decreases s.len() - i,
{
    if i < 0 || i >= s.len() {
        None
    } else {
        let b = s[i];
        if b == term {
            if state_accepts(st) {
                Some(state_version(st))
            } else {
                scan_from(s, i + 1, init_state(), term)
            }
        } else if b == 0 {
            scan_from(s, i + 1, init_state(), term)
        } else if b == 46 {
            scan_from(s, i + 1, dot_step(st), term)
        } else if is_digit(b) {
            scan_from(s, i + 1, digit_step(st, b), term)
        } else {
            scan_from(s, i + 1, poison(st), term)
        }
    }
}

/// The window of `data` that the profile exposes to the scanner.
pub open spec fn window_of(data: Seq<u8>, profile: ScanProfile) -> Seq<u8> {
    let from = if profile.skip <= data.len() {
        profile.skip as int
    } else {
        data.len() as int
    };
    let rest = data.skip(from);
    match profile.window {
        Some(w) => if w <= rest.len() {
            rest.take(w as int)
        } else {
            rest
        },
        None => rest,
    }
}

/// Version found by a full scan of `data` under `profile`.
pub open spec fn scan_spec(data: Seq<u8>, profile: ScanProfile) -> Option<Version> {
    scan_from(window_of(data, profile), 0, init_state(), profile.terminator)
}

/// Value of one scanner buffer as a version component, when it fits.
fn buf_value(b: &Vec<u8>) -> (r: Option<u8>)
    requires
        is_digits(b@),
    ensures
        match r {
            Some(n) => b@.len() > 0 && dec_val(b@) == n,
            None => b@.len() == 0 || dec_val(b@) > 255,
        },
{
    match u64_from_dec(b) {
        Some(n) => {
            proof {
                assert(parse_dec_u64(b@) == Some(n));
                crate::text::lemma_dec_val_nonneg(b@);
            }
            if n <= 255 {
                Some(n as u8)
            } else {
                None
            }
        },
        None => None,
    }
}

/// Runs the byte-pattern scanner over `data` as `profile` directs,
/// returning exactly what `scan_spec` denotes.
pub fn scan_version(data: &Vec<u8>, profile: &ScanProfile) -> (r: Option<Version>)
    ensures
        r == scan_spec(data@, *profile),
{
    let len = data.len();
    let start = if profile.skip <= len {
        profile.skip
    } else {
        len
    };
    let end = match profile.window {
        Some(w) => {
            if w <= len - start {
                start + w
            } else {
                len
            }
        },
        None => len,
    };
    let ghost win = window_of(data@, *profile);
    proof {
        assert(win =~= data@.subrange(start as int, end as int));
    }
    let mut b0: Vec<u8> = Vec::new();
    let mut b1: Vec<u8> = Vec::new();
    let mut b2: Vec<u8> = Vec::new();
    let mut cursor: u8 = 0;
    let mut correct: bool = true;
    let mut i: usize = start;
    proof {
        assert(seq![b0@, b1@, b2@] =~~= init_state().bufs);
    }
    while i < end
        invariant
            start <= i <= end <= data@.len(),
            win == data@.subrange(start as int, end as int),
            0 <= cursor <= 3,
            correct ==> cursor <= 2,
            is_digits(b0@),
            is_digits(b1@),
            is_digits(b2@),
            scan_spec(data@, *profile) == scan_from(
                win,
                i - start,
                ScanState { bufs: seq![b0@, b1@, b2@], cursor: cursor as int, correct },
                profile.terminator,
            ),
        decreases end - i,
    {
        let ghost st = ScanState { bufs: seq![b0@, b1@, b2@], cursor: cursor as int, correct };
        let b = data[i];
        proof {
            assert(win[i - start] == b);
        }
        if b == profile.terminator {
            let mut hit = false;
            let mut found = Version { major: 0, minor: 0, patch: 0 };
            if correct && b0.len() > 0 && b1.len() > 0 && b2.len() > 0 {
                if let Some(major) = buf_value(&b0) {
                    if let Some(minor) = buf_value(&b1) {
                        if let Some(patch) = buf_value(&b2) {
                            hit = true;
                            found = Version { major, minor, patch };
                        }
                    }
                }
            }
            if hit {
                assert(state_accepts(st) && found == state_version(st));
                return Some(found);
            }
            assert(!state_accepts(st));
            b0 = Vec::new();
            b1 = Vec::new();
            b2 = Vec::new();
            cursor = 0;
            correct = true;
            proof {
                assert(seq![b0@, b1@, b2@] =~~= init_state().bufs);
            }
        } else if b == 0 {
            b0 = Vec::new();
            b1 = Vec::new();
            b2 = Vec::new();
            cursor = 0;
            correct = true;
            proof {
                assert(seq![b0@, b1@, b2@] =~~= init_state().bufs);
            }
        } else if b == 46 {
            if cursor < 3 {
                cursor = cursor + 1;
            }
            if cursor > 2 {
                correct = false;
            }
            proof {
                assert(ScanState {
                    bufs: seq![b0@, b1@, b2@],
                    cursor: cursor as int,
                    correct,
                } =~~= dot_step(st));
            }
        } else if 48 <= b && b <= 57 {
            if correct {
                if cursor == 0 {
                    b0.push(b);
                } else if cursor == 1 {
                    b1.push(b);
                } else {
                    b2.push(b);
                }
            }
            proof {
                assert(ScanState {
                    bufs: seq![b0@, b1@, b2@],
                    cursor: cursor as int,
                    correct,
                } =~~= digit_step(st, b));
            }
        } else {
            correct = false;
            proof {
                assert(ScanState {
                    bufs: seq![b0@, b1@, b2@],
                    cursor: cursor as int,
                    correct,
                } =~~= poison(st));
            }
        }
        i = i + 1;
    }
    None
}

} // verus!
