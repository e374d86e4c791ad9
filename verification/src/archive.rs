//! Names of the stored frames: one file per frame, named by the nanosecond at
//! which the frame was accepted.

use vstd::prelude::*;
use vstd::string::StringExecFns;
use crate::decimal::{
    decimal_string, decimal_text, digit_count, digits_text, lemma_digit_count_grows,
    lemma_digits_are_digits, lemma_digits_differ, lemma_digits_nonempty, lemma_nineteen_digits,
    lemma_struck_digits, strike_digits,
};
use crate::sorting::{lemma_sorts_one_way, sorts_before, sorts_before_at};

verus! {

/// The text `.jpg`, with which every name ends.
pub open spec fn extension_text() -> Seq<char> {
    seq!['.', 'j', 'p', 'g']
}

/// The path of the file called `number` in a directory.
pub open spec fn numbered(directory: Seq<char>, number: Seq<char>) -> Seq<char> {
    directory + seq!['/'] + number + extension_text()
}

/// The path of the frame accepted at `nanos`: the directory, a slash, the
/// number in decimal and the extension.
pub open spec fn path_text(directory: Seq<char>, nanos: int) -> Seq<char> {
    numbered(directory, decimal_text(nanos))
}

/// Whether the names of two instants, `earlier` before `later`, sort in the
/// order of the instants.
///
/// Names are texts, and texts are sorted character by character from the
/// left, not by the size of the numbers that they spell.
/// - A name from before the epoch begins with the sign, and so precedes every
///   name from the epoch on.
/// - From the epoch on, the lesser number precedes the greater where it does
///   not exceed what the leading digits of the greater spell, as many of them
///   as the lesser has: 1 precedes 10, and 9 does not.
/// - Before the epoch the earlier instant has the greater magnitude. It
///   precedes the later where its leading digits, as many as the lesser
///   magnitude has, spell less than that: -10 precedes -2, and -2 does not
///   precede -1.
pub open spec fn names_keep_order(earlier: int, later: int) -> bool
    recommends
        earlier < later,
{
    if earlier < 0 <= later {
        true
    } else if 0 <= earlier {
        let shorter = earlier as nat;
        let longer = later as nat;
        shorter <= strike_digits(longer, (digit_count(longer) - digit_count(shorter)) as nat)
    } else {
        let shorter = (-later) as nat;
        let longer = (-earlier) as nat;
        strike_digits(longer, (digit_count(longer) - digit_count(shorter)) as nat) < shorter
    }
}

/// Composes the path under which the frame accepted at `nanos` is stored.
pub fn archive_path(directory: &str, nanos: i64) -> (path: String)
    ensures
        path@ == path_text(directory@, nanos as int),
{
    let mut path = String::from_str(directory);
    path.append("/");
    let number = decimal_string(nanos);
    path.append(number.as_str());
    path.append(".jpg");
    proof {
        reveal_strlit("/");
        reveal_strlit(".jpg");
        assert("/"@ =~= seq!['/']);
        assert(".jpg"@ =~= extension_text());
    }
    path
}

proof fn lemma_lesser_character_first(directory: Seq<char>, x: Seq<char>, y: Seq<char>, j: int)
    requires
        0 <= j < x.len(),
        j < y.len(),
        forall|i: int| 0 <= i < j ==> x[i] == y[i],
        (x[j] as u32) < (y[j] as u32),
    ensures
        sorts_before(numbered(directory, x), numbered(directory, y)),
{
    assert(sorts_before_at(numbered(directory, x), numbered(directory, y), directory.len() + 1 + j));
}

proof fn lemma_shorter_number_first(directory: Seq<char>, x: Seq<char>, y: Seq<char>)
    requires
        x.len() < y.len(),
        forall|i: int| 0 <= i < x.len() ==> x[i] == y[i],
        ('.' as u32) < (y[x.len() as int] as u32),
    ensures
        sorts_before(numbered(directory, x), numbered(directory, y)),
{
    assert(sorts_before_at(
        numbered(directory, x),
        numbered(directory, y),
        (directory.len() + 1 + x.len()) as int,
    ));
}

/// Which of the names of two numbers comes first, where both numbers stand
/// behind the same sign or behind none.
proof fn lemma_names_of_magnitudes(directory: Seq<char>, sign: Seq<char>, lesser: nat, greater: nat)
    requires
        lesser < greater,
        sign.len() <= 1,
    ensures
        ({
            let short = numbered(directory, sign + digits_text(lesser));
            let long = numbered(directory, sign + digits_text(greater));
            let lead = strike_digits(
                greater,
                (digit_count(greater) - digit_count(lesser)) as nat,
            );
            &&& lesser <= lead ==> sorts_before(short, long)
            &&& lead < lesser ==> sorts_before(long, short)
        }),
{
    let s = digits_text(lesser);
    let g = digits_text(greater);
    lemma_digits_nonempty(lesser);
    lemma_digit_count_grows(lesser, greater);
    let k = (digit_count(greater) - digit_count(lesser)) as nat;
    let lead = strike_digits(greater, k);
    lemma_struck_digits(greater, k);
    let at = sign.len() as int;
    if lesser < lead {
        let j = lemma_digits_differ(lesser, lead);
        lemma_lesser_character_first(directory, sign + s, sign + g, at + j);
    } else if lead < lesser {
        let j = lemma_digits_differ(lead, lesser);
        lemma_lesser_character_first(directory, sign + g, sign + s, at + j);
    } else {
        lemma_digits_are_digits(greater, s.len() as int);
        lemma_shorter_number_first(directory, sign + s, sign + g);
    }
}

proof fn lemma_names_by_time(directory: Seq<char>, earlier: int, later: int)
    requires
        earlier < later,
    ensures
        names_keep_order(earlier, later) ==> sorts_before(
            path_text(directory, earlier),
            path_text(directory, later),
        ),
        !names_keep_order(earlier, later) ==> sorts_before(
            path_text(directory, later),
            path_text(directory, earlier),
        ),
{
    if earlier < 0 <= later {
        lemma_digits_are_digits(later as nat, 0);
        lemma_digits_nonempty(later as nat);
        lemma_lesser_character_first(directory, decimal_text(earlier), decimal_text(later), 0);
    } else if 0 <= earlier {
        lemma_names_of_magnitudes(directory, Seq::empty(), earlier as nat, later as nat);
        assert(Seq::<char>::empty() + digits_text(earlier as nat) =~= decimal_text(earlier));
        assert(Seq::<char>::empty() + digits_text(later as nat) =~= decimal_text(later));
    } else {
        lemma_names_of_magnitudes(directory, seq!['-'], (-later) as nat, (-earlier) as nat);
    }
}

/// Of two frames stored in one directory, the one accepted earlier has the
/// name that sorts first exactly where the names of the two instants keep
/// their order.
pub proof fn law_names_sort_by_time(directory: Seq<char>, earlier: i64, later: i64)
    requires
        earlier < later,
    ensures
        sorts_before(path_text(directory, earlier as int), path_text(directory, later as int))
            <==> names_keep_order(earlier as int, later as int),
{
    lemma_names_by_time(directory, earlier as int, later as int);
    if !names_keep_order(earlier as int, later as int) {
        lemma_sorts_one_way(
            path_text(directory, later as int),
            path_text(directory, earlier as int),
        );
    }
}

/// From the instant 1 000 000 000 000 000 000 on, which lies in the year 2001,
/// the names of the frames stored in one directory sort by the time at which
/// the frames were accepted.
pub proof fn law_names_since_2001_sort_by_time(directory: Seq<char>, earlier: i64, later: i64)
    requires
        1_000_000_000_000_000_000 <= earlier < later,
    ensures
        sorts_before(path_text(directory, earlier as int), path_text(directory, later as int)),
{
    lemma_nineteen_digits(earlier);
    lemma_nineteen_digits(later);
    law_names_sort_by_time(directory, earlier, later);
}

/// Frames accepted at different instants are stored under different names.
pub proof fn law_names_are_distinct(directory: Seq<char>, one: i64, other: i64)
    requires
        one != other,
    ensures
        path_text(directory, one as int) != path_text(directory, other as int),
{
    let a = path_text(directory, one as int);
    let b = path_text(directory, other as int);
    if one < other {
        lemma_names_by_time(directory, one as int, other as int);
    } else {
        lemma_names_by_time(directory, other as int, one as int);
    }
    if sorts_before(a, b) {
        lemma_sorts_one_way(a, b);
    } else {
        lemma_sorts_one_way(b, a);
    }
}

} // verus!
