//! Which host names mean this machine, over the characters they are written with.

use vstd::prelude::*;

use crate::host::{
    is_full_loopback_v6, is_group, is_local_host, is_octet, is_shortened_loopback_v6, split,
};

verus! {

/// The parts written one after the other, with `separator` between any two.
pub open spec fn joined(parts: Seq<Seq<char>>, separator: char) -> Seq<char>
    decreases parts.len(),
{
    if parts.len() == 0 {
        Seq::empty()
    } else if parts.len() == 1 {
        parts[0]
    } else {
        joined(parts.drop_last(), separator).push(separator) + parts.last()
    }
}

/// The number that a run of decimal digits writes.
pub open spec fn decimal_value(digits: Seq<char>) -> int
    decreases digits.len(),
{
    if digits.len() == 0 {
        0
    } else {
        10 * decimal_value(digits.drop_last()) + (digits.last() as int - '0' as int)
    }
}

/// The parts that a text is cut into hold no separator, and joined with it they
/// are the text again.
pub proof fn law_the_parts_of_a_cut_text_join_again(text: Seq<char>, separator: char)
    ensures
        split(text, separator).len() > 0,
        joined(split(text, separator), separator) == text,
        forall|i: int, j: int|
            #![trigger split(text, separator)[i][j]]
            0 <= i < split(text, separator).len() && 0 <= j < split(text, separator)[i].len()
                ==> split(text, separator)[i][j] != separator,
    decreases text.len(),
{
    let parts = split(text, separator);
    if text.len() == 0 {
        assert(joined(parts, separator) =~= text);
    } else {
        let rest = text.drop_last();
        let rest_parts = split(rest, separator);
        law_the_parts_of_a_cut_text_join_again(rest, separator);
        if text.last() == separator {
            assert(parts.drop_last() =~= rest_parts);
            assert(joined(parts, separator) =~= text);
        } else {
            assert(parts.drop_last() =~= rest_parts.drop_last());
            assert(parts.last() == rest_parts.last().push(text.last()));
            assert(text =~= rest.push(text.last()));
            assert(joined(parts, separator) =~= joined(rest_parts, separator).push(text.last()));
            assert forall|i: int, j: int|
                0 <= i < parts.len() && 0 <= j < parts[i].len() implies #[trigger] parts[i][j]
                != separator by {
                if i < parts.len() - 1 {
                    assert(parts[i] == rest_parts[i]);
                    assert(rest_parts[i][j] != separator);
                } else if j < parts[i].len() - 1 {
                    assert(rest_parts[i][j] != separator);
                }
            }
        }
    }
}

/// A number from 0 to 255 without leading zeros is what an octet is.
proof fn lemma_octet_is_a_small_number(text: Seq<char>)
    ensures
        is_octet(text) <==> {
            &&& 1 <= text.len() <= 3
            &&& forall|i: int| 0 <= i < text.len() ==> '0' <= #[trigger] text[i] <= '9'
            &&& text.len() > 1 ==> text[0] != '0'
            &&& decimal_value(text) <= 255
        },
{
    reveal_with_fuel(decimal_value, 4);
    if text.len() == 2 {
        assert(text.drop_last().len() == 1);
    }
    if text.len() == 3 {
        assert(text.drop_last().drop_last().len() == 1);
        assert(text.drop_last()[1] == text[1]);
    }
    if 1 <= text.len() <= 3 && (forall|i: int|
        0 <= i < text.len() ==> '0' <= #[trigger] text[i] <= '9') {
        assert('0' <= text[0] <= '9');
        if text.len() > 1 {
            assert('0' <= text[1] <= '9');
        }
        if text.len() > 2 {
            assert('0' <= text[2] <= '9');
        }
    }
}

/// Writing characters other than the separator behind a text makes its last part
/// longer.
proof fn lemma_split_of_longer_text(text: Seq<char>, more: Seq<char>, separator: char)
    requires
        forall|j: int| 0 <= j < more.len() ==> #[trigger] more[j] != separator,
    ensures
        split(text + more, separator) == split(text, separator).update(
            split(text, separator).len() - 1,
            split(text, separator).last() + more,
        ),
        split(text, separator).len() > 0,
    decreases more.len(),
{
    law_the_parts_of_a_cut_text_join_again(text, separator);
    let parts = split(text, separator);
    if more.len() == 0 {
        assert(text + more =~= text);
        assert(parts.last() + more =~= parts.last());
        assert(parts.update(parts.len() - 1, parts.last() + more) =~= parts);
    } else {
        let shorter = more.drop_last();
        assert forall|j: int| 0 <= j < shorter.len() implies #[trigger] shorter[j] != separator by {
            assert(more[j] != separator);
        }
        lemma_split_of_longer_text(text, shorter, separator);
        assert((text + more).drop_last() =~= text + shorter);
        assert(more[more.len() - 1] != separator);
        assert((parts.last() + shorter).push(more.last()) =~= parts.last() + more);
        assert(split(text + more, separator) =~= parts.update(
            parts.len() - 1,
            parts.last() + more,
        ));
    }
}

/// Parts without the separator are what the text they join to is cut into.
proof fn lemma_split_of_joined_parts(parts: Seq<Seq<char>>, separator: char)
    requires
        parts.len() > 0,
        forall|i: int, j: int|
            #![trigger parts[i][j]]
            0 <= i < parts.len() && 0 <= j < parts[i].len() ==> parts[i][j] != separator,
    ensures
        split(joined(parts, separator), separator) == parts,
    decreases parts.len(),
{
    let last = parts.last();
    if parts.len() == 1 {
        lemma_split_of_longer_text(Seq::empty(), last, separator);
        assert(Seq::<char>::empty() + last =~= last);
        assert(split(last, separator) =~= parts);
    } else {
        let rest = parts.drop_last();
        assert forall|i: int, j: int|
            0 <= i < rest.len() && 0 <= j < rest[i].len() implies #[trigger] rest[i][j]
            != separator by {
            assert(parts[i][j] != separator);
        }
        lemma_split_of_joined_parts(rest, separator);
        let ended = joined(rest, separator).push(separator);
        assert(ended.drop_last() =~= joined(rest, separator));
        assert(split(ended, separator) == rest.push(Seq::empty()));
        lemma_split_of_longer_text(ended, last, separator);
        assert(Seq::<char>::empty() + last =~= last);
        assert(split(ended + last, separator) =~= parts);
    }
}

/// A shell that reports no host means this machine. A host that it reports means
/// this machine exactly where, without the square brackets around it, it is one of
/// these: the name localhost, each letter in capitals or not; four numbers from 0
/// to 255 with dots between them, without leading zeros, the first being 127; or
/// an address of eight groups with colons between them, the last being one and
/// every other zero, where one run of zero groups may be left out, the last two
/// groups may be written as four numbers with dots between them, and a group has
/// at most four digits.
///
/// `name` is the host without its brackets, and `dotted` and `groups` are what
/// stands in it between dots and between colons.
pub proof fn law_a_host_is_local_by_its_name_or_its_address(
    reported_host: Option<&str>,
    name: Seq<char>,
    dotted: Seq<Seq<char>>,
    groups: Seq<Seq<char>>,
    is_local: bool,
)
    requires
        call_ensures(is_local_host, (reported_host,), is_local),
        reported_host matches Some(host) ==> name == (if host@.len() >= 2 && host@[0] == '['
            && host@[host@.len() - 1] == ']' {
            host@.subrange(1, host@.len() - 1)
        } else {
            host@
        }),
        dotted.len() > 0,
        joined(dotted, '.') == name,
        forall|i: int, j: int|
            #![trigger dotted[i][j]]
            0 <= i < dotted.len() && 0 <= j < dotted[i].len() ==> dotted[i][j] != '.',
        groups.len() > 0,
        joined(groups, ':') == name,
        forall|i: int, j: int|
            #![trigger groups[i][j]]
            0 <= i < groups.len() && 0 <= j < groups[i].len() ==> groups[i][j] != ':',
    ensures
        reported_host is None ==> is_local,
        reported_host is Some ==> {
            let small = seq!['l', 'o', 'c', 'a', 'l', 'h', 'o', 's', 't'];
            let capital = seq!['L', 'O', 'C', 'A', 'L', 'H', 'O', 'S', 'T'];
            let last = groups[groups.len() - 1];
            let is_last_dotted = last == seq!['0', '.', '0', '.', '0', '.', '1'];
            let last_count: int = if is_last_dotted {
                2
            } else {
                1
            };
            is_local <==> {
                ||| name.len() == 9 && forall|i: int|
                    0 <= i < 9 ==> #[trigger] name[i] == small[i] || name[i] == capital[i]
                ||| dotted.len() == 4 && dotted[0] == seq!['1', '2', '7'] && forall|i: int|
                    1 <= i < 4 ==> {
                        &&& 1 <= (#[trigger] dotted[i]).len() <= 3
                        &&& forall|j: int|
                            0 <= j < dotted[i].len() ==> '0' <= #[trigger] dotted[i][j] <= '9'
                        &&& dotted[i].len() > 1 ==> dotted[i][0] != '0'
                        &&& decimal_value(dotted[i]) <= 255
                    }
                ||| (is_last_dotted || (1 <= last.len() <= 4 && last[last.len() - 1] == '1'
                    && forall|j: int| 0 <= j < last.len() - 1 ==> #[trigger] last[j] == '0')) && {
                    ||| groups.len() - 1 + last_count == 8 && forall|i: int|
                        0 <= i < groups.len() - 1 ==> 1 <= (#[trigger] groups[i]).len() <= 4
                            && forall|j: int|
                            0 <= j < groups[i].len() ==> #[trigger] groups[i][j] == '0'
                    ||| exists|gap: int|
                        {
                            &&& 1 <= gap < groups.len() - 1
                            &&& (#[trigger] groups[gap]).len() == 0
                            &&& forall|i: int|
                                0 <= i < groups.len() - 1 && i != gap && !(i == 0 && gap == 1
                                    && groups[0].len() == 0) ==> 1 <= (#[trigger] groups[i]).len()
                                    <= 4 && forall|j: int|
                                    0 <= j < groups[i].len() ==> #[trigger] groups[i][j] == '0'
                            &&& if gap == 1 && groups[0].len() == 0 {
                                groups.len() - 3 + last_count <= 7
                            } else {
                                groups.len() - 2 + last_count <= 7
                            }
                        }
                }
            }
        },
{
    if let Some(host) = reported_host {
        lemma_split_of_joined_parts(dotted, '.');
        lemma_split_of_joined_parts(groups, ':');
        assert(name == crate::host::unbracketed(host@));
        lemma_localhost(name);
        lemma_loopback_v4(dotted);
        lemma_loopback_v6(groups);
    }
}

/// The name localhost, letter by letter.
proof fn lemma_localhost(name: Seq<char>)
    ensures
        ({
            let small = seq!['l', 'o', 'c', 'a', 'l', 'h', 'o', 's', 't'];
            let capital = seq!['L', 'O', 'C', 'A', 'L', 'H', 'O', 'S', 'T'];
            crate::host::is_localhost(name) <==> name.len() == 9 && forall|i: int|
                0 <= i < 9 ==> #[trigger] name[i] == small[i] || name[i] == capital[i]
        }),
{
    let small = seq!['l', 'o', 'c', 'a', 'l', 'h', 'o', 's', 't'];
    let capital = seq!['L', 'O', 'C', 'A', 'L', 'H', 'O', 'S', 'T'];
    if name.len() == 9 && forall|i: int|
        0 <= i < 9 ==> #[trigger] name[i] == small[i] || name[i] == capital[i] {
        assert(name[0] == small[0] || name[0] == capital[0]);
        assert(name[1] == small[1] || name[1] == capital[1]);
        assert(name[2] == small[2] || name[2] == capital[2]);
        assert(name[3] == small[3] || name[3] == capital[3]);
        assert(name[4] == small[4] || name[4] == capital[4]);
        assert(name[5] == small[5] || name[5] == capital[5]);
        assert(name[6] == small[6] || name[6] == capital[6]);
        assert(name[7] == small[7] || name[7] == capital[7]);
        assert(name[8] == small[8] || name[8] == capital[8]);
    }
}

/// Four numbers with dots between them, the first being 127.
proof fn lemma_loopback_v4(dotted: Seq<Seq<char>>)
    ensures
        dotted.len() == 4 && dotted[0] == seq!['1', '2', '7'] && is_octet(dotted[1]) && is_octet(
            dotted[2],
        ) && is_octet(dotted[3]) <==> dotted.len() == 4 && dotted[0] == seq!['1', '2', '7']
            && forall|i: int|
            1 <= i < 4 ==> {
                &&& 1 <= (#[trigger] dotted[i]).len() <= 3
                &&& forall|j: int|
                    0 <= j < dotted[i].len() ==> '0' <= #[trigger] dotted[i][j] <= '9'
                &&& dotted[i].len() > 1 ==> dotted[i][0] != '0'
                &&& decimal_value(dotted[i]) <= 255
            },
{
    lemma_octet_is_a_small_number(dotted[1]);
    lemma_octet_is_a_small_number(dotted[2]);
    lemma_octet_is_a_small_number(dotted[3]);
}

/// Eight groups with colons between them, all zero but for a last one.
proof fn lemma_loopback_v6(groups: Seq<Seq<char>>)
    requires
        groups.len() > 0,
    ensures
        ({
            let last = groups[groups.len() - 1];
            let is_last_dotted = last == seq!['0', '.', '0', '.', '0', '.', '1'];
            let last_count: int = if is_last_dotted {
                2
            } else {
                1
            };
            is_full_loopback_v6(groups) || (exists|gap: int| #[trigger]
                is_shortened_loopback_v6(groups, gap)) <==> (is_last_dotted || (1 <= last.len() <= 4
                && last[last.len() - 1] == '1' && forall|j: int|
                0 <= j < last.len() - 1 ==> #[trigger] last[j] == '0')) && {
                ||| groups.len() - 1 + last_count == 8 && forall|i: int|
                    0 <= i < groups.len() - 1 ==> 1 <= (#[trigger] groups[i]).len() <= 4
                        && forall|j: int|
                        0 <= j < groups[i].len() ==> #[trigger] groups[i][j] == '0'
                ||| exists|gap: int|
                    {
                        &&& 1 <= gap < groups.len() - 1
                        &&& (#[trigger] groups[gap]).len() == 0
                        &&& forall|i: int|
                            0 <= i < groups.len() - 1 && i != gap && !(i == 0 && gap == 1
                                && groups[0].len() == 0) ==> 1 <= (#[trigger] groups[i]).len() <= 4
                                && forall|j: int|
                                0 <= j < groups[i].len() ==> #[trigger] groups[i][j] == '0'
                        &&& if gap == 1 && groups[0].len() == 0 {
                            groups.len() - 3 + last_count <= 7
                        } else {
                            groups.len() - 2 + last_count <= 7
                        }
                    }
            }
        }),
{
    let last = groups[groups.len() - 1];
    assert forall|i: int| 0 <= i < groups.len() implies (#[trigger] is_group(groups[i], '0') <==> 1
        <= groups[i].len() <= 4 && forall|j: int|
        0 <= j < groups[i].len() ==> #[trigger] groups[i][j] == '0') by {
        let group = groups[i];
        if is_group(group, '0') {
            assert forall|j: int| 0 <= j < group.len() implies #[trigger] group[j] == '0' by {}
        }
    }
    assert(is_group(last, '1') <==> 1 <= last.len() <= 4 && last[last.len() - 1] == '1' && forall|
        j: int,
    |
        0 <= j < last.len() - 1 ==> #[trigger] last[j] == '0');
    if exists|gap: int| #[trigger] is_shortened_loopback_v6(groups, gap) {
        let gap = choose|gap: int| #[trigger] is_shortened_loopback_v6(groups, gap);
        assert(groups[gap].len() == 0);
        assert forall|i: int|
            0 <= i < groups.len() - 1 && i != gap && !(i == 0 && gap == 1 && groups[0].len()
                == 0) implies 1 <= (#[trigger] groups[i]).len() <= 4 && forall|j: int|
            0 <= j < groups[i].len() ==> #[trigger] groups[i][j] == '0' by {
            assert(is_group(groups[i], '0'));
        }
    }
    assert forall|gap: int|
        1 <= gap < groups.len() - 1 && (#[trigger] groups[gap]).len() == 0 && (is_group(last, '1')
            || last == seq!['0', '.', '0', '.', '0', '.', '1']) && (forall|i: int|
            0 <= i < groups.len() - 1 && i != gap && !(i == 0 && gap == 1 && groups[0].len() == 0)
                ==> 1 <= (#[trigger] groups[i]).len() <= 4 && forall|j: int|
                0 <= j < groups[i].len() ==> #[trigger] groups[i][j] == '0') && (if gap == 1
            && groups[0].len() == 0 {
            groups.len() - 3 + (if last == seq!['0', '.', '0', '.', '0', '.', '1'] {
                2int
            } else {
                1int
            }) <= 7
        } else {
            groups.len() - 2 + (if last == seq!['0', '.', '0', '.', '0', '.', '1'] {
                2int
            } else {
                1int
            }) <= 7
        }) implies is_shortened_loopback_v6(groups, gap) by {
        assert forall|i: int|
            0 <= i < groups.len() - 1 && i != gap && !(i == 0 && gap == 1 && groups[0].len()
                == 0) implies is_group(#[trigger] groups[i], '0') by {}
    }
}

} // verus!
