//! Names of the transient files in the staging directory.

use crate::text::{
    after_last_dot, decimal, decimal_digits, digit_char, find_last_dot, same_text, stem,
};
use vstd::prelude::*;
use vstd::string::*;

verus! {

/// The file name that a finished job's output gets: the stem of the input's
/// name, a word for the operation, and an extension. A `convert` takes the
/// requested format as its extension; every other operation keeps what stands
/// after the last dot of the input's name.
pub open spec fn output_filename(
    original_name: Seq<char>,
    operation: Seq<char>,
    format: Seq<char>,
) -> Seq<char> {
    if operation == "convert"@ {
        stem(original_name) + "_converted."@ + format
    } else if operation == "trim"@ {
        stem(original_name) + "_trimmed."@ + after_last_dot(original_name)
    } else {
        stem(original_name) + "_processed."@ + after_last_dot(original_name)
    }
}

/// The name under which a file is staged: the timestamp in decimal, an
/// underscore, and the file's own name.
pub open spec fn staged_name(timestamp: nat, name: Seq<char>) -> Seq<char> {
    decimal_digits(timestamp) + "_"@ + name
}

/// The stamp for the next staged name, given the last stamp handed out and
/// the time now: the time, unless a stamp at or after it was handed out
/// already, and then one more than the last. There is none once the last stamp
/// is the greatest number.
pub open spec fn stamp_for(last: u64, now: u64) -> Option<u64> {
    if now > last {
        Some(now)
    } else if last < u64::MAX {
        Some((last + 1) as u64)
    } else {
        None
    }
}

/// Whether `stamps` are what was handed out, one stamp after the other, at the
/// times `nows`, beginning after the stamp `last`.
pub open spec fn handed_out_in_turn(last: u64, nows: Seq<u64>, stamps: Seq<u64>) -> bool {
    &&& stamps.len() == nows.len()
    &&& forall|i: int|
        0 <= i < stamps.len() ==> stamp_for(
            if i == 0 {
                last
            } else {
                stamps[i - 1]
            },
            #[trigger] nows[i],
        ) == Some(stamps[i])
}

/// Derives the output file name for an operation on a file.
pub fn generate_output_filename(original_name: &str, operation: &str, format: &str) -> (name:
    String)
    ensures
        name@ == output_filename(original_name@, operation@, format@),
{
    let length: usize = original_name.unicode_len();
    let dot: Option<usize> = find_last_dot(original_name);
    let base: &str = match dot {
        Some(k) => original_name.substring_char(0, k),
        None => original_name,
    };
    let extension: &str = match dot {
        Some(k) => original_name.substring_char(k + 1, length),
        None => original_name,
    };
    let mut name: String = String::from_str(base);
    if same_text(operation, "convert") {
        name.append("_converted.");
        name.append(format);
    } else if same_text(operation, "trim") {
        name.append("_trimmed.");
        name.append(extension);
    } else {
        name.append("_processed.");
        name.append(extension);
    }
    name
}

/// Hands out the stamp for the next staged name. The caller keeps the stamp
/// as `last` for the next call: every stamp is then greater than all before
/// it, whatever the clock says, so that no two staged names are the same.
pub fn next_stamp(last: u64, now: u64) -> (stamp: Option<u64>)
    ensures
        stamp == stamp_for(last, now),
        stamp matches Some(s) ==> s > last && s >= now,
        stamp.is_none() <==> last == u64::MAX,
{
    if now > last {
        Some(now)
    } else if last < u64::MAX {
        Some(last + 1)
    } else {
        None
    }
}

/// The name under which an uploaded file is staged with a given stamp.
pub fn staged_file_name(timestamp: u64, original_name: &str) -> (name: String)
    ensures
        name@ == staged_name(timestamp as nat, original_name@),
{
    let mut name: String = decimal(timestamp);
    name.append("_");
    name.append(original_name);
    name
}

/// The name under which the output of an operation is staged with a given stamp.
pub fn temp_output_file_name(
    timestamp: u64,
    original_name: &str,
    operation: &str,
    format: &str,
) -> (name: String)
    ensures
        name@ == staged_name(
            timestamp as nat,
            output_filename(original_name@, operation@, format@),
        ),
{
    let output: String = generate_output_filename(original_name, operation, format);
    staged_file_name(timestamp, output.as_str())
}

/// The positions of the regular files among the entries of a directory, in
/// order, given for each entry whether it is a regular file.
pub open spec fn regular_files(is_file: Seq<bool>) -> Seq<usize>
    decreases is_file.len(),
{
    if is_file.len() == 0 {
        Seq::empty()
    } else if is_file.last() {
        regular_files(is_file.drop_last()).push((is_file.len() - 1) as usize)
    } else {
        regular_files(is_file.drop_last())
    }
}

/// Which entries of the staging directory a purge deletes: every regular file
/// directly in it, and nothing else.
pub fn purge_targets(is_file: &Vec<bool>) -> (targets: Vec<usize>)
    ensures
        targets@ == regular_files(is_file@),
{
    let mut targets: Vec<usize> = Vec::new();
    let mut i: usize = 0;
    proof {
        assert(is_file@.take(0) =~= Seq::<bool>::empty());
    }
    while i < is_file.len()
        invariant
            i <= is_file.len(),
            targets@ == regular_files(is_file@.take(i as int)),
        decreases is_file.len() - i,
    {
        proof {
            assert(is_file@.take(i as int + 1).drop_last() =~= is_file@.take(i as int));
        }
        if is_file[i] {
            targets.push(i);
        }
        i += 1;
    }
    proof {
        assert(is_file@.take(i as int) =~= is_file@);
    }
    targets
}

/// A purge deletes an entry exactly when it is a regular file: subdirectories
/// are left alone, and no regular file is left behind.
pub proof fn lemma_purge_takes_exactly_the_files(is_file: Seq<bool>, entry: usize)
    requires
        is_file.len() <= usize::MAX,
    ensures
        regular_files(is_file).contains(entry) <==> (entry < is_file.len() && is_file[entry as int]),
    decreases is_file.len(),
{
    if is_file.len() > 0 {
        let front = is_file.drop_last();
        let last: usize = (is_file.len() - 1) as usize;
        lemma_purge_takes_exactly_the_files(front, entry);
        if is_file.last() {
            let targets = regular_files(front).push(last);
            if regular_files(front).contains(entry) {
                let k = choose|k: int|
                    0 <= k < regular_files(front).len() && regular_files(front)[k] == entry;
                assert(targets[k] == entry);
            }
            if entry == last {
                assert(targets[targets.len() - 1] == entry);
            }
            if targets.contains(entry) && entry != last {
                let k = choose|k: int| 0 <= k < targets.len() && targets[k] == entry;
                assert(regular_files(front)[k] == entry);
            }
        }
    }
}

/// No decimal numeral holds an underscore, and none is empty.
pub proof fn lemma_decimal_has_no_underscore(n: nat)
    ensures
        decimal_digits(n).len() >= 1,
        forall|i: int| 0 <= i < decimal_digits(n).len() ==> decimal_digits(n)[i] != '_',
    decreases n,
{
    if n >= 10 {
        lemma_decimal_has_no_underscore(n / 10);
    }
}

/// Two numbers with the same decimal numeral are the same number.
pub proof fn lemma_decimal_injective(a: nat, b: nat)
    requires
        decimal_digits(a) == decimal_digits(b),
    ensures
        a == b,
    decreases a,
{
    lemma_decimal_has_no_underscore(a / 10);
    lemma_decimal_has_no_underscore(b / 10);
    if a < 10 && b < 10 {
        assert(decimal_digits(a)[0] == digit_char(a));
        assert(decimal_digits(b)[0] == digit_char(b));
    } else if a >= 10 && b >= 10 {
        let x = decimal_digits(a / 10);
        let y = decimal_digits(b / 10);
        assert(x.push(digit_char(a % 10)).last() == digit_char(a % 10));
        assert(y.push(digit_char(b % 10)).last() == digit_char(b % 10));
        assert(x.push(digit_char(a % 10)).drop_last() =~= x);
        assert(y.push(digit_char(b % 10)).drop_last() =~= y);
        lemma_decimal_injective(a / 10, b / 10);
        assert(a % 10 == b % 10);
    } else if a < 10 {
        assert(decimal_digits(a).len() == 1);
        assert(decimal_digits(b).len() == decimal_digits(b / 10).len() + 1);
    } else {
        assert(decimal_digits(b).len() == 1);
        assert(decimal_digits(a).len() == decimal_digits(a / 10).len() + 1);
    }
}

/// Staged names are told apart by their timestamps and by the names they were
/// made from: two staged names are the same only for the same timestamp and
/// the same name.
pub proof fn lemma_staged_name_injective(
    first_time: nat,
    first_name: Seq<char>,
    second_time: nat,
    second_name: Seq<char>,
)
    requires
        staged_name(first_time, first_name) == staged_name(second_time, second_name),
    ensures
        first_time == second_time,
        first_name == second_name,
{
    reveal_strlit("_");
    let a = decimal_digits(first_time);
    let b = decimal_digits(second_time);
    let x = staged_name(first_time, first_name);
    let y = staged_name(second_time, second_name);
    lemma_decimal_has_no_underscore(first_time);
    lemma_decimal_has_no_underscore(second_time);
    assert(x[a.len() as int] == '_');
    assert(y[b.len() as int] == '_');
    if a.len() < b.len() {
        assert(y[a.len() as int] == b[a.len() as int]);
    }
    if b.len() < a.len() {
        assert(x[b.len() as int] == a[b.len() as int]);
    }
    assert(a =~= x.subrange(0, a.len() as int));
    assert(b =~= y.subrange(0, b.len() as int));
    lemma_decimal_injective(first_time, second_time);
    assert(first_name =~= x.subrange(a.len() as int + 1, x.len() as int));
    assert(second_name =~= y.subrange(b.len() as int + 1, y.len() as int));
}

/// Stamps handed out in turn grow: a later one is greater than an earlier one.
pub proof fn lemma_stamps_increase(last: u64, nows: Seq<u64>, stamps: Seq<u64>, i: int, j: int)
    requires
        handed_out_in_turn(last, nows, stamps),
        0 <= i < j < stamps.len(),
    ensures
        stamps[i] < stamps[j],
    decreases j - i,
{
    assert(stamp_for(stamps[j - 1], nows[j]) == Some(stamps[j]));
    assert(stamps[j - 1] < stamps[j]);
    if i < j - 1 {
        lemma_stamps_increase(last, nows, stamps, i, j - 1);
    }
}

/// No two files staged with stamps that were handed out in turn get the same
/// name, whatever they are called and however close in time they come.
pub proof fn lemma_staged_names_never_repeat(
    last: u64,
    nows: Seq<u64>,
    stamps: Seq<u64>,
    i: int,
    j: int,
    first_name: Seq<char>,
    second_name: Seq<char>,
)
    requires
        handed_out_in_turn(last, nows, stamps),
        0 <= i < j < stamps.len(),
    ensures
        staged_name(stamps[i] as nat, first_name) != staged_name(stamps[j] as nat, second_name),
{
    lemma_stamps_increase(last, nows, stamps, i, j);
    if staged_name(stamps[i] as nat, first_name) == staged_name(stamps[j] as nat, second_name) {
        lemma_staged_name_injective(stamps[i] as nat, first_name, stamps[j] as nat, second_name);
    }
}

} // verus!
