//! Dotted version numbers of the project file format.
//!
//! A version is one or more decimal components separated by dots, such as
//! `1.0.0`. A file version is supported unless it is newer than the format
//! this engine writes (`1.0.0`, with missing components read as zero), or
//! is not a version number at all.

use vstd::prelude::*;
use vstd::string::*;

verus! {

pub open spec fn is_digit(c: char) -> bool {
    48 <= c as u32 <= 57
}

pub open spec fn digit_value(c: char) -> nat {
    (c as u32 - 48) as nat
}

/// Reading `text` left to right: the components completed so far and the
/// value of the component being read, if a digit has been read since the
/// last dot; `None` once a character that is neither a digit nor a dot, or
/// an empty component, has been read.
pub open spec fn version_scan(text: Seq<char>) -> Option<(Seq<nat>, Option<nat>)>
    decreases text.len(),
{
    if text.len() == 0 {
        Some((Seq::empty(), None))
    } else {
        match version_scan(text.drop_last()) {
            None => None,
            Some((done, current)) => {
                let c = text.last();
                if is_digit(c) {
                    Some(
                        (
                            done,
                            Some(
                                match current {
                                    Some(n) => n * 10 + digit_value(c),
                                    None => digit_value(c),
                                },
                            ),
                        ),
                    )
                } else if c == '.' {
                    match current {
                        Some(n) => Some((done.push(n), None)),
                        None => None,
                    }
                } else {
                    None
                }
            },
        }
    }
}

/// The components of a version number, or `None` when `text` is not one.
pub open spec fn version_components(text: Seq<char>) -> Option<Seq<nat>> {
    match version_scan(text) {
        Some((done, Some(n))) => Some(done.push(n)),
        _ => None,
    }
}

/// The components describe a version newer than 1.0.0.
pub open spec fn newer_than_current(components: Seq<nat>) -> bool {
    components[0] > 1 || (components[0] == 1 && exists|i: int|
        1 <= i < components.len() && #[trigger] components[i] > 0)
}

/// Files of this version can be read: it is a version number no newer than 1.0.0.
pub open spec fn version_supported(text: Seq<char>) -> bool {
    match version_components(text) {
        Some(components) => !newer_than_current(components),
        None => false,
    }
}

/// How a number compares with 0 and 1: itself below 2, else 2.
pub open spec fn capped(n: nat) -> nat {
    if n < 2 {
        n
    } else {
        2
    }
}

proof fn lemma_capped_step(n: nat, d: nat)
    requires
        d < 10,
    ensures
        capped(n * 10 + d) == capped(capped(n) * 10 + d),
{
    if n >= 2 {
        assert(n * 10 + d >= 20) by (nonlinear_arith)
            requires
                n >= 2,
        ;
    }
}

/// Once reading fails, reading more characters cannot repair it.
proof fn lemma_scan_failure_persists(text: Seq<char>, k: int)
    requires
        0 <= k <= text.len(),
        version_scan(text.take(k)) is None,
    ensures
        version_scan(text) is None,
    decreases text.len() - k,
{
    if k < text.len() {
        assert(text.take(k + 1).drop_last() =~= text.take(k));
        lemma_scan_failure_persists(text, k + 1);
    } else {
        assert(text.take(k) =~= text);
    }
}

/// Whether the version `text` can be read by this engine.
pub fn is_supported_version(text: &str) -> (supported: bool)
    ensures
        supported == version_supported(text@),
{
    let len = text.unicode_len();
    // Capped values of: the first completed component, the current component.
    let mut first: u64 = 0;
    let mut completed: usize = 0;
    let mut later_positive = false;
    let mut current: Option<u64> = None;
    let mut i: usize = 0;
    assert(text@.take(0) =~= Seq::<char>::empty());
    while i < len
        invariant
            len == text@.len(),
            0 <= i <= len,
            completed <= i,
            version_scan(text@.take(i as int)) matches Some((done, cur)) && {
                &&& done.len() == completed
                &&& completed > 0 ==> first == capped(done[0])
                &&& later_positive == exists|j: int| 1 <= j < done.len() && #[trigger] done[j] > 0
                &&& match cur {
                    Some(n) => current == Some(capped(n) as u64),
                    None => current is None,
                }
            },
        decreases len - i,
    {
        let c = text.get_char(i);
        let ghost prev = text@.take(i as int);
        assert(text@.take(i + 1).drop_last() =~= prev);
        assert(text@.take(i + 1).last() == c);
        let code = c as u32;
        if 48 <= code && code <= 57 {
            let d = (code - 48) as u64;
            proof {
                let (done, cur) = version_scan(prev).unwrap();
                match cur {
                    Some(n) => lemma_capped_step(n, d as nat),
                    None => {},
                }
            }
            let value = match current {
                Some(n) => n * 10 + d,
                None => d,
            };
            current = Some(if value < 2 { value } else { 2 });
            proof {
                let (done, cur) = version_scan(prev).unwrap();
                let next_n = match cur {
                    Some(n) => n * 10 + digit_value(c),
                    None => digit_value(c),
                };
                assert(version_scan(text@.take(i + 1)) == Some((done, Some(next_n))));
                assert(current == Some(capped(next_n) as u64));
            }
        } else if c == '.' {
            match current {
                Some(n) => {
                    let ghost old_later = later_positive;
                    proof {
                        let (done, cur) = version_scan(prev).unwrap();
                        let pushed = done.push(cur.unwrap());
                        assert forall|j: int| 1 <= j < done.len() implies #[trigger] pushed[j] == done[j] by {}
                    }
                    if completed == 0 {
                        first = n;
                    } else if n > 0 {
                        later_positive = true;
                    }
                    completed = completed + 1;
                    current = None;
                    proof {
                        let (done, cur) = version_scan(prev).unwrap();
                        let pushed = done.push(cur.unwrap());
                        assert(version_scan(text@.take(i + 1)) == Some((pushed, None::<nat>)));
                        assert(pushed.len() == completed);
                        assert(completed > 0 ==> first == capped(pushed[0]));
                        let last = done.len() as int;
                        if later_positive {
                            if old_later {
                                let j = choose|j: int| 1 <= j < done.len() && #[trigger] done[j] > 0;
                                assert(pushed[j] > 0);
                            } else {
                                assert(pushed[last] > 0);
                            }
                        } else {
                            assert forall|j: int| 1 <= j < pushed.len() implies !(#[trigger] pushed[j] > 0) by {
                                if j < last {
                                    assert(pushed[j] == done[j]);
                                    assert(!(done[j] > 0));
                                }
                            }
                        }
                        assert(later_positive == exists|j: int| 1 <= j < pushed.len() && #[trigger] pushed[j] > 0);
                    }
                },
                None => {
                    proof {
                        lemma_scan_failure_persists(text@, i + 1);
                    }
                    return false;
                },
            }
        } else {
            proof {
                lemma_scan_failure_persists(text@, i + 1);
            }
            return false;
        }
        proof {
            let (done, cur) = version_scan(text@.take(i + 1)).unwrap();
            assert(done.len() == completed);
            assert(completed > 0 ==> first == capped(done[0]));
            assert(later_positive == exists|j: int| 1 <= j < done.len() && #[trigger] done[j] > 0);
            assert(match cur {
                    Some(n) => current == Some(capped(n) as u64),
                    None => current is None,
                });
        }
        i = i + 1;
    }
    assert(text@.take(len as int) =~= text@);
    assert(version_scan(text@.take(len as int)) == version_scan(text@));
    match current {
        None => {
            proof {
                let (done, cur) = version_scan(text@).unwrap();
                assert(cur is None);
                assert(version_scan(text@) == Some((done, None::<nat>)));
                assert(version_components(text@) is None);
                assert(!version_supported(text@));
            }
            false
        },
        Some(n) => {
            let ghost components = version_components(text@).unwrap();
            proof {
                let (done, cur) = version_scan(text@).unwrap();
                assert(components == done.push(cur.unwrap()));
                assert forall|j: int| 1 <= j < done.len() implies #[trigger] components[j] == done[j] by {}
                let last = done.len() as int;
                if completed > 0 {
                    if later_positive {
                        let j = choose|j: int| 1 <= j < done.len() && #[trigger] done[j] > 0;
                        assert(components[j] > 0);
                    }
                    if n > 0 {
                        assert(components[last] > 0);
                    }
                    if !later_positive && n == 0 {
                        assert forall|j: int| 1 <= j < components.len() implies !(#[trigger] components[j] > 0) by {
                            if j < last {
                                assert(!(done[j] > 0));
                            }
                        }
                    }
                }
            }
            if completed == 0 {
                !(n > 1)
            } else {
                !(first > 1 || (first == 1 && (later_positive || n > 0)))
            }
        },
    }
}

/// The format version this engine writes is one it reads.
pub proof fn current_version_is_supported()
    ensures
        version_supported("1.0.0"@),
{
    reveal_strlit("1.0.0");
    reveal_with_fuel(version_scan, 6);
    let text = "1.0.0"@;
    assert(text.drop_last().drop_last().drop_last().drop_last().drop_last() =~= Seq::<char>::empty());
    let components = version_components(text).unwrap();
    assert(components =~= seq![1nat, 0nat, 0nat]);
}

/// Files of an older format version (major version 0) are not refused as
/// unsupported; only files from the future are.
pub proof fn older_versions_are_supported(text: Seq<char>)
    requires
        version_components(text) matches Some(components) && components[0] == 0,
    ensures
        version_supported(text),
{
}

/// Files whose major version is above the current one are refused.
pub proof fn newer_versions_are_refused(text: Seq<char>)
    requires
        version_components(text) matches Some(components) && components[0] > 1,
    ensures
        !version_supported(text),
{
}

} // verus!
