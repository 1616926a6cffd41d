//! Keeping the set of watched repositories in step with the server's map:
//! which repositories need a watcher, which directories are stale, what a
//! watcher does after a round, and how long it sleeps between rounds.
use vstd::prelude::*;

use crate::text::{chars_of, decimal, digit_char, i32_to_decimal, signed_decimal};

verus! {

/// The repositories of the new map that are not watched yet, in the order of
/// the new map.
pub open spec fn unwatched(watched: Seq<i32>, listed: Seq<i32>) -> Seq<i32> {
    listed.filter(|k: i32| !watched.contains(k))
}

fn contains_id(v: &Vec<i32>, k: i32) -> (r: bool)
    ensures
        r == v@.contains(k),
{
    let mut i: usize = 0;
    while i < v.len()
        invariant
            i <= v@.len(),
            forall|j: int| 0 <= j < i ==> v@[j] != k,
        decreases v.len() - i,
    {
        if v[i] == k {
            assert(v@[i as int] == k);
            return true;
        }
        i = i + 1;
    }
    false
}

/// The repositories that need a watcher started: those of the new map that
/// are not watched yet.
pub fn repos_to_watch(watched: &Vec<i32>, listed: &Vec<i32>) -> (r: Vec<i32>)
    ensures
        r@ == unwatched(watched@, listed@),
{
    let mut r: Vec<i32> = Vec::new();
    let mut i: usize = 0;
    let ghost pred = |k: i32| !watched@.contains(k);
    while i < listed.len()
        invariant
            i <= listed@.len(),
            pred == (|k: i32| !watched@.contains(k)),
            r@ == listed@.take(i as int).filter(pred),
        decreases listed.len() - i,
    {
        let k = listed[i];
        assert(listed@.take(i + 1) =~= listed@.take(i as int).push(k));
        proof {
            listed@.take(i as int).lemma_filter_push(k, pred);
        }
        if !contains_id(watched, k) {
            r.push(k);
        }
        i = i + 1;
    }
    assert(listed@.take(listed@.len() as int) =~= listed@);
    r
}

/// The names of the directories that belong to the repositories: their ids
/// in decimal.
pub fn dir_names(ids: &Vec<i32>) -> (r: Vec<String>)
    ensures
        r@.len() == ids@.len(),
        forall|i: int| 0 <= i < ids@.len() ==> #[trigger] r@[i]@ == signed_decimal(ids@[i] as int),
{
    let mut r: Vec<String> = Vec::new();
    let mut i: usize = 0;
    while i < ids.len()
        invariant
            i <= ids@.len(),
            r@.len() == i,
            forall|j: int| 0 <= j < i ==> #[trigger] r@[j]@ == signed_decimal(ids@[j] as int),
        decreases ids.len() - i,
    {
        r.push(i32_to_decimal(ids[i]));
        i = i + 1;
    }
    r
}

/// Some name of `keep` is `name`.
pub open spec fn is_kept(keep: Seq<String>, name: Seq<char>) -> bool {
    exists|j: int| 0 <= j < keep.len() && (#[trigger] keep[j])@ == name
}

/// An entry of a clone or build directory goes when it is a directory that
/// no repository of the map owns.
pub fn should_remove_dir(is_dir: bool, base_name: &str, keep: &Vec<String>) -> (r: bool)
    ensures
        r == (is_dir && !is_kept(keep@, base_name@)),
{
    let name = String::from_str(base_name);
    let mut j: usize = 0;
    while j < keep.len()
        invariant
            j <= keep@.len(),
            name@ == base_name@,
            forall|k: int| 0 <= k < j ==> (#[trigger] keep@[k])@ != base_name@,
        decreases keep.len() - j,
    {
        if keep[j] == name {
            assert(keep@[j as int]@ == base_name@);
            return false;
        }
        j = j + 1;
    }
    is_dir
}

/// What a watcher does after a round.
#[derive(PartialEq, Eq, Structural, Clone, Copy, Debug)]
pub enum AfterRound {
    /// The repository left the map: the watcher ends.
    Stop,
    /// Sleep and watch again, remembering whether this round succeeded.
    Again { last_run_success: bool },
}

/// What a watcher does after a round: it ends when the round says the
/// repository is gone, and otherwise watches again, remembering a failure so
/// that the next round rebuilds.
pub fn after_round<E>(outcome: &Result<bool, E>) -> (r: AfterRound)
    ensures
        match outcome {
            Ok(true) => r == AfterRound::Again { last_run_success: true },
            Ok(false) => r == AfterRound::Stop,
            Err(_) => r == AfterRound::Again { last_run_success: false },
        },
{
    match outcome {
        Ok(true) => AfterRound::Again { last_run_success: true },
        Ok(false) => AfterRound::Stop,
        Err(_) => AfterRound::Again { last_run_success: false },
    }
}

/// The message that a failed round prints.
pub fn round_error_message(repo_id: i32, details: &str) -> (r: String)
    ensures
        r@ == "Error happened when running thread for repo with id: "@ + signed_decimal(
            repo_id as int,
        ) + ". Will retry. Error details: \n"@ + details@,
{
    let mut r = String::from_str("Error happened when running thread for repo with id: ");
    let n = i32_to_decimal(repo_id);
    r.append(n.as_str());
    r.append(". Will retry. Error details: \n");
    r.append(details);
    r
}

// ---------------------------------------------------------------------------
// The pause between rounds
// ---------------------------------------------------------------------------

/// The value of a string of decimal digits.
pub open spec fn digits_value(d: Seq<char>) -> nat
    decreases d.len(),
{
    if d.len() == 0 {
        0
    } else {
        digits_value(d.drop_last()) * 10 + ((d.last() as u32) - 48) as nat
    }
}

/// Every character is an ASCII digit.
pub open spec fn all_digits(d: Seq<char>) -> bool {
    forall|i: int| 0 <= i < d.len() ==> '0' <= #[trigger] d[i] && d[i] <= '9'
}

/// What std's `u64::from_str` reads from `s`: an optional `+` and at least
/// one digit, of a value that fits.
pub open spec fn parsed_u64(s: Seq<char>) -> Option<nat> {
    let d = if s.len() > 0 && s[0] == '+' {
        s.skip(1)
    } else {
        s
    };
    if d.len() > 0 && all_digits(d) && digits_value(d) <= u64::MAX {
        Some(digits_value(d))
    } else {
        None
    }
}

/// The number of seconds to sleep between rounds: the setting where it is a
/// number, else 10.
pub fn sleep_time_sec(raw: &str) -> (r: u64)
    ensures
        r == match parsed_u64(raw@) {
            Some(n) => n,
            None => 10,
        },
{
    let s = chars_of(raw);
    let start: usize = if s.len() > 0 && s[0] == '+' {
        1
    } else {
        0
    };
    let ghost d = s@.skip(start as int);
    assert(d == (if s@.len() > 0 && s@[0] == '+' {
        s@.skip(1)
    } else {
        s@
    })) by {
        if start == 0 {
            assert(s@.skip(0) =~= s@);
        }
    }
    if start >= s.len() {
        return 10;
    }
    let mut value: u64 = 0;
    let mut i: usize = start;
    while i < s.len()
        invariant
            start <= i <= s@.len(),
            s@ == raw@,
            d == s@.skip(start as int),
            d == (if s@.len() > 0 && s@[0] == '+' {
                s@.skip(1)
            } else {
                s@
            }),
            all_digits(s@.subrange(start as int, i as int)),
            value as nat == digits_value(s@.subrange(start as int, i as int)),
        decreases s.len() - i,
    {
        let c = s[i];
        let ghost prefix = s@.subrange(start as int, i as int);
        let ghost next = s@.subrange(start as int, i + 1);
        assert(next.drop_last() =~= prefix);
        assert(next.last() == c);
        if c < '0' || c > '9' {
            assert(d[i - start] == c);
            return 10;
        }
        let digit: u64 = ((c as u32) - 48) as u64;
        if value > (u64::MAX - digit) / 10 {
            // The number does not fit: neither does any longer one.
            proof {
                assert(digits_value(next) == value * 10 + digit);
                assert(value * 10 + digit > u64::MAX) by (nonlinear_arith)
                    requires
                        value > (u64::MAX - digit) / 10,
                        digit <= 9,
                ;
                assert(d.take((i + 1 - start) as int) =~= next);
                if all_digits(d) {
                    lemma_digits_value_prefix(d, (i + 1 - start) as int);
                }
            }
            return 10;
        }
        value = value * 10 + digit;
        assert(all_digits(next));
        i = i + 1;
    }
    assert(s@.subrange(start as int, s@.len() as int) =~= d);
    value
}

/// A longer string of digits is worth at least as much as its prefix.
proof fn lemma_digits_value_prefix(d: Seq<char>, k: int)
    requires
        0 <= k <= d.len(),
        all_digits(d),
    ensures
        digits_value(d) >= digits_value(d.take(k)),
    decreases d.len(),
{
    if k < d.len() {
        assert(d.drop_last().take(k) =~= d.take(k));
        assert(all_digits(d.drop_last())) by {
            assert forall|i: int| 0 <= i < d.drop_last().len() implies '0' <= #[trigger] d.drop_last()[i]
                && d.drop_last()[i] <= '9' by {
                assert(d.drop_last()[i] == d[i]);
            }
        }
        lemma_digits_value_prefix(d.drop_last(), k);
    } else {
        assert(d.take(k) =~= d);
    }
}

/// What `decimal` writes reads back as the number it wrote.
proof fn lemma_digits_of_decimal(n: nat)
    ensures
        all_digits(decimal(n)),
        digits_value(decimal(n)) == n,
    decreases n,
{
    let c = digit_char(n % 10);
    assert((c as u32) == 48 + n % 10);
    if n < 10 {
        assert(decimal(n).drop_last() =~= Seq::<char>::empty());
        assert(decimal(n).last() == c);
        assert(digits_value(decimal(n)) == digits_value(decimal(n).drop_last()) * 10 + ((c as u32) - 48) as nat);
        assert(digits_value(Seq::<char>::empty()) == 0);
    } else {
        lemma_digits_of_decimal(n / 10);
        let d = decimal(n / 10);
        assert(decimal(n) == d.push(c));
        assert(decimal(n).drop_last() =~= d);
        assert(decimal(n).last() == c);
        assert((n / 10) * 10 + n % 10 == n);
        assert(digits_value(decimal(n)) == digits_value(d) * 10 + ((c as u32) - 48) as nat);
        assert forall|i: int| 0 <= i < decimal(n).len() implies '0' <= #[trigger] decimal(n)[i]
            && decimal(n)[i] <= '9' by {
            if i < d.len() {
                assert(decimal(n)[i] == d[i]);
            }
        }
    }
}

/// A setting that holds a number in decimal gives that many seconds.
pub proof fn lemma_pause_reads_decimal(n: u64)
    ensures
        parsed_u64(decimal(n as nat)) == Some(n as nat),
{
    lemma_digits_of_decimal(n as nat);
    crate::text::lemma_decimal_nonempty(n as nat);
    assert(decimal(n as nat)[0] != '+');
}

/// A round starts one watcher for each repository of the map that has none:
/// every repository it starts is in the map and was not watched, and every
/// repository of the map is watched or started.
pub proof fn lemma_one_watcher_per_repository(watched: Seq<i32>, listed: Seq<i32>)
    ensures
        forall|k: i32| #[trigger] unwatched(watched, listed).contains(k) ==> listed.contains(k)
            && !watched.contains(k),
        forall|k: i32| #[trigger] listed.contains(k) ==> watched.contains(k) || unwatched(
            watched,
            listed,
        ).contains(k),
{
    let f = |k: i32| !watched.contains(k);
    assert forall|k: i32| #[trigger] unwatched(watched, listed).contains(k) implies listed.contains(k)
        && !watched.contains(k) by {
        listed.lemma_filter_contains_rev(f, k);
        let i = choose|i: int| 0 <= i < listed.filter(f).len() && listed.filter(f)[i] == k;
        listed.lemma_filter_pred(f, i);
    }
    assert forall|k: i32| #[trigger] listed.contains(k) implies watched.contains(k) || unwatched(
        watched,
        listed,
    ).contains(k) by {
        if !watched.contains(k) {
            let i = choose|i: int| 0 <= i < listed.len() && listed[i] == k;
            listed.lemma_filter_contains(f, i);
        }
    }
}

/// The directory of a repository of the map is never removed: its name is
/// among the names that [`dir_names`] gives for the map.
pub proof fn lemma_map_dirs_are_kept(ids: Seq<i32>, names: Seq<String>, i: int)
    requires
        names.len() == ids.len(),
        forall|j: int| 0 <= j < ids.len() ==> #[trigger] names[j]@ == signed_decimal(ids[j] as int),
        0 <= i < ids.len(),
    ensures
        is_kept(names, signed_decimal(ids[i] as int)),
{
    assert(names[i]@ == signed_decimal(ids[i] as int));
}

} // verus!
