//! Atomic file writes — `tmp + fsync + rename`.
//!
//! `rename(2)` is atomic within a filesystem, so a write goes to a
//! tempfile in the target's own directory, is synced, and is renamed over
//! the target: at any moment the target holds either the full old or the
//! full new content. This module decides where the tempfile goes (next to
//! the target, named `.<file>.tmp-<pid>-<nanos>`) and which targets cannot
//! be written this way; the filesystem steps are done around it.

use vstd::prelude::*;

use crate::path::{path_file_name, path_file_name_of, path_join, path_join_of, path_parent,
    path_parent_of};

verus! {

/// Errors that can arise during an atomic write.
#[derive(Debug, Clone, PartialEq, Eq)]
pub enum AtomicWriteError {
    /// Target path has no parent directory to stage a temp file in.
    NoParent(String),
    /// Target path has no file name component.
    NoFileName(String),
    /// Underlying filesystem error. `op` describes the step.
    Io {
        /// The step that failed.
        op: &'static str,
        /// The path the failed step targeted.
        path: String,
        /// The filesystem's description of the failure.
        message: String,
    },
}

/// The decimal digits of `n`, most significant first.
pub open spec fn decimal_text(n: nat) -> Seq<char>
    decreases n,
{
    if n < 10 {
        seq![digit_char(n)]
    } else {
        decimal_text(n / 10).push(digit_char(n % 10))
    }
}

/// The character of a digit below ten.
pub open spec fn digit_char(d: nat) -> char {
    (('0' as u32) + d) as char
}

/// The decimal digit values of `n`, least significant first.
pub open spec fn digits_low_first(n: nat) -> Seq<nat>
    decreases n,
{
    if n < 10 {
        seq![n]
    } else {
        seq![n % 10] + digits_low_first(n / 10)
    }
}

/// The text of digit values given most significant last.
pub open spec fn text_of_low_first(d: Seq<nat>) -> Seq<char>
    decreases d.len(),
{
    if d.len() == 0 {
        Seq::empty()
    } else {
        text_of_low_first(d.drop_first()).push(digit_char(d[0]))
    }
}

proof fn lemma_decimal_text_digits(n: nat)
    ensures
        decimal_text(n) == text_of_low_first(digits_low_first(n)),
        forall|k: int| 0 <= k < digits_low_first(n).len() ==> #[trigger] digits_low_first(n)[k] < 10,
    decreases n,
{
    let d = digits_low_first(n);
    if n >= 10 {
        lemma_decimal_text_digits(n / 10);
        let tail = digits_low_first(n / 10);
        assert(d == seq![n % 10] + tail);
        assert(d.drop_first() =~= tail);
        assert(d[0] == n % 10);
        assert(text_of_low_first(d) == text_of_low_first(tail).push(digit_char(n % 10)));
        assert forall|k: int| 0 <= k < d.len() implies #[trigger] d[k] < 10 by {
            if k > 0 {
                assert(d[k] == tail[k - 1]);
            }
        }
    } else {
        assert(d == seq![n]);
        assert(d.drop_first() =~= Seq::<nat>::empty());
        assert(text_of_low_first(Seq::<nat>::empty()) == Seq::<char>::empty());
        assert(text_of_low_first(d) == Seq::<char>::empty().push(digit_char(n)));
        assert(Seq::<char>::empty().push(digit_char(n)) =~= seq![digit_char(n)]);
    }
}

/// Writes `n` in decimal.
pub fn decimal_string(n: u128) -> (s: String)
    ensures
        s@ == decimal_text(n as nat),
{
    let mut digits: Vec<u32> = Vec::new();
    let mut rest: u128 = n;
    proof {
        lemma_decimal_text_digits(n as nat);
    }
    let ghost all = digits_low_first(n as nat);
    loop
        invariant_except_break
            all =~= digits@.map_values(|d: u32| d as nat) + digits_low_first(rest as nat),
        invariant
            rest <= n,
            all == digits_low_first(n as nat),
            forall|k: int| 0 <= k < all.len() ==> #[trigger] all[k] < 10,
        ensures
            all =~= digits@.map_values(|d: u32| d as nat),
        decreases rest,
    {
        let d = (rest % 10) as u32;
        let ghost tail = digits_low_first(rest as nat);
        let ghost old_view = digits@.map_values(|d: u32| d as nat);
        if rest < 10 {
            digits.push(d);
            proof {
                assert(tail == seq![rest as nat]);
                assert(digits@.map_values(|d: u32| d as nat) =~= old_view.push(rest as nat));
                assert(all =~= digits@.map_values(|d: u32| d as nat));
            }
            break;
        }
        proof {
            assert(tail == seq![(rest % 10) as nat] + digits_low_first((rest / 10) as nat));
            assert(digits@.push(d).map_values(|d: u32| d as nat) =~= digits@.map_values(
                |d: u32| d as nat,
            ).push(d as nat));
        }
        digits.push(d);
        rest = rest / 10;
    }
    // `digits@` now spells `all`.
    let mut s = String::new();
    let mut i: usize = digits.len();
    proof {
        assert(all.len() == digits@.len());
        assert(all.subrange(i as int, all.len() as int) =~= Seq::<nat>::empty());
    }
    while i > 0
        invariant
            i <= digits@.len(),
            all =~= digits@.map_values(|d: u32| d as nat),
            forall|k: int| 0 <= k < all.len() ==> #[trigger] all[k] < 10,
            s@ == text_of_low_first(all.subrange(i as int, all.len() as int)),
        decreases i,
    {
        i = i - 1;
        assert(all[i as int] == digits@[i as int] as nat);
        let one = digit_str(digits[i]);
        proof {
            let t = all.subrange(i as int, all.len() as int);
            assert(t.drop_first() =~= all.subrange(i + 1, all.len() as int));
            assert(t[0] == all[i as int]);
        }
        s.append(one);
    }
    proof {
        assert(all.subrange(0, all.len() as int) =~= all);
    }
    s
}

/// The one-character text of the digit `d < 10`.
fn digit_str(d: u32) -> (s: &'static str)
    requires
        d < 10,
    ensures
        s@ == seq![digit_char(d as nat)],
{
    proof {
        reveal_strlit("0");
        reveal_strlit("1");
        reveal_strlit("2");
        reveal_strlit("3");
        reveal_strlit("4");
        reveal_strlit("5");
        reveal_strlit("6");
        reveal_strlit("7");
        reveal_strlit("8");
        reveal_strlit("9");
    }
    let s = if d == 0 {
        "0"
    } else if d == 1 {
        "1"
    } else if d == 2 {
        "2"
    } else if d == 3 {
        "3"
    } else if d == 4 {
        "4"
    } else if d == 5 {
        "5"
    } else if d == 6 {
        "6"
    } else if d == 7 {
        "7"
    } else if d == 8 {
        "8"
    } else {
        "9"
    };
    assert(s@ =~= seq![digit_char(d as nat)]);
    s
}

/// `.<file>.tmp-<pid>-<nanos>`: unique through the process id and the
/// nanosecond timestamp.
pub open spec fn tmp_name_text(file_name: Seq<char>, pid: u32, nanos: u128) -> Seq<char> {
    "."@ + file_name + ".tmp-"@ + decimal_text(pid as nat) + "-"@ + decimal_text(nanos as nat)
}

/// The name of the tempfile staged next to a target named `file_name`.
pub fn tmp_name(file_name: &str, pid: u32, nanos: u128) -> (s: String)
    ensures
        s@ == tmp_name_text(file_name@, pid, nanos),
{
    let mut s = String::from_str(".");
    s.append(file_name);
    s.append(".tmp-");
    let p = decimal_string(pid as u128);
    s.append(p.as_str());
    s.append("-");
    let t = decimal_string(nanos);
    s.append(t.as_str());
    s
}

/// Where the tempfile for `target` is staged, or why `target` cannot be
/// written atomically: it needs a non-empty parent directory to stage in
/// and a final file-name component.
pub open spec fn staging_outcome(target: Seq<char>, pid: u32, nanos: u128, r: Result<
    String,
    AtomicWriteError,
>) -> bool {
    match path_parent_of(target) {
        Some(parent) if parent.len() > 0 => match path_file_name_of(target) {
            Some(name) => r matches Ok(p) && p@ == path_join_of(
                parent,
                tmp_name_text(name, pid, nanos),
            ),
            None => r matches Err(AtomicWriteError::NoFileName(t)) && t@ == target,
        },
        _ => r matches Err(AtomicWriteError::NoParent(t)) && t@ == target,
    }
}

/// The tempfile path for an atomic write of `target` by process `pid` at
/// time `nanos` (nanoseconds since the epoch).
pub fn staging_path(target: &str, pid: u32, nanos: u128) -> (r: Result<String, AtomicWriteError>)
    ensures
        staging_outcome(target@, pid, nanos, r),
{
    let parent = match path_parent(target) {
        Some(p) => {
            if p.as_str().unicode_len() == 0 {
                return Err(AtomicWriteError::NoParent(String::from_str(target)));
            }
            p
        },
        None => return Err(AtomicWriteError::NoParent(String::from_str(target))),
    };
    let name = match path_file_name(target) {
        Some(n) => n,
        None => return Err(AtomicWriteError::NoFileName(String::from_str(target))),
    };
    let tmp = tmp_name(name.as_str(), pid, nanos);
    Ok(path_join(parent.as_str(), tmp.as_str()))
}

} // verus!
