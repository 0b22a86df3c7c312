//! Whether a host name that a shell reports means this machine.

use vstd::prelude::*;

verus! {

/// `text` cut at every `separator`: one part more than there are separators.
pub open spec fn split(text: Seq<char>, separator: char) -> Seq<Seq<char>>
    decreases text.len(),
{
    if text.len() == 0 {
        seq![Seq::empty()]
    } else {
        let parts = split(text.drop_last(), separator);
        if text.last() == separator {
            parts.push(Seq::empty())
        } else {
            parts.update(parts.len() - 1, parts.last().push(text.last()))
        }
    }
}

/// `text` without the square brackets around it, where both are there.
pub open spec fn unbracketed(text: Seq<char>) -> Seq<char> {
    if text.len() >= 2 && text.first() == '[' && text.last() == ']' {
        text.subrange(1, text.len() - 1)
    } else {
        text
    }
}

/// `text` spells localhost, in capitals or not.
pub open spec fn is_localhost(text: Seq<char>) -> bool {
    &&& text.len() == 9
    &&& text[0] == 'l' || text[0] == 'L'
    &&& text[1] == 'o' || text[1] == 'O'
    &&& text[2] == 'c' || text[2] == 'C'
    &&& text[3] == 'a' || text[3] == 'A'
    &&& text[4] == 'l' || text[4] == 'L'
    &&& text[5] == 'h' || text[5] == 'H'
    &&& text[6] == 'o' || text[6] == 'O'
    &&& text[7] == 's' || text[7] == 'S'
    &&& text[8] == 't' || text[8] == 'T'
}

/// `text` is a decimal digit run for 0 to 255 without leading zeros.
pub open spec fn is_octet(text: Seq<char>) -> bool {
    &&& 1 <= text.len() <= 3
    &&& forall|i: int| 0 <= i < text.len() ==> '0' <= #[trigger] text[i] <= '9'
    &&& text.len() > 1 ==> text[0] != '0'
    &&& text.len() == 3 ==> text[0] == '1' || (text[0] == '2' && (text[1] < '5' || (text[1] == '5'
        && text[2] <= '5')))
}

/// `text` is an IPv4 address of the loopback block, which begins with 127.
pub open spec fn is_loopback_v4(text: Seq<char>) -> bool {
    let parts = split(text, '.');
    &&& parts.len() == 4
    &&& parts[0] == seq!['1', '2', '7']
    &&& is_octet(parts[1])
    &&& is_octet(parts[2])
    &&& is_octet(parts[3])
}

/// `text` is one group of an IPv6 address whose digits are zeros, but for a last
/// digit that is `last_digit`.
pub open spec fn is_group(text: Seq<char>, last_digit: char) -> bool {
    &&& 1 <= text.len() <= 4
    &&& text.last() == last_digit
    &&& forall|i: int| 0 <= i < text.len() - 1 ==> #[trigger] text[i] == '0'
}

/// Every part from `low` up to `high` is a group of zeros.
pub open spec fn are_zero_groups(parts: Seq<Seq<char>>, low: int, high: int) -> bool {
    forall|i: int| low <= i < high ==> is_group(#[trigger] parts[i], '0')
}

/// How many groups of an IPv6 address the last part stands for when it ends the
/// address with the value one: a group of its own, or the two groups written as
/// an IPv4 address. Zero where it ends no such address.
pub open spec fn one_group_count(last_part: Seq<char>) -> int {
    if is_group(last_part, '1') {
        1
    } else if last_part == seq!['0', '.', '0', '.', '0', '.', '1'] {
        2
    } else {
        0
    }
}

/// The parts of an IPv6 address, cut at its colons, write out all eight groups
/// of the loopback address.
pub open spec fn is_full_loopback_v6(parts: Seq<Seq<char>>) -> bool {
    &&& one_group_count(parts.last()) > 0
    &&& parts.len() - 1 + one_group_count(parts.last()) == 8
    &&& are_zero_groups(parts, 0, parts.len() - 1)
}

/// The parts of an IPv6 address, cut at its colons, write the loopback address
/// with the empty part at `gap` standing for one or more groups of zeros. A gap
/// at the very front leaves two empty parts there.
pub open spec fn is_shortened_loopback_v6(parts: Seq<Seq<char>>, gap: int) -> bool {
    &&& 1 <= gap < parts.len() - 1
    &&& parts[gap].len() == 0
    &&& one_group_count(parts.last()) > 0
    &&& are_zero_groups(parts, gap + 1, parts.len() - 1)
    &&& if gap == 1 && parts[0].len() == 0 {
        parts.len() - gap - 2 + one_group_count(parts.last()) <= 7
    } else {
        &&& are_zero_groups(parts, 0, gap)
        &&& gap + (parts.len() - gap - 2) + one_group_count(parts.last()) <= 7
    }
}

/// `text` is a spelling of the IPv6 loopback address, whose value is one.
pub open spec fn is_loopback_v6(text: Seq<char>) -> bool {
    let parts = split(text, ':');
    is_full_loopback_v6(parts) || exists|gap: int| #[trigger] is_shortened_loopback_v6(parts, gap)
}

/// `host` names this machine: localhost, or a loopback address with or without
/// square brackets around it.
pub open spec fn names_this_machine(host: Seq<char>) -> bool {
    let name = unbracketed(host);
    is_localhost(name) || is_loopback_v4(name) || is_loopback_v6(name)
}

/// The characters of `text`.
fn collect_chars(text: &str) -> (r: Vec<char>)
    ensures
        r@ == text@,
{
    let length: usize = text.unicode_len();
    let mut characters: Vec<char> = Vec::new();
    let mut index: usize = 0;
    while index < length
        invariant
            length == text@.len(),
            index <= length,
            characters@ == text@.take(index as int),
        decreases length - index,
    {
        characters.push(text.get_char(index));
        index = index + 1;
        assert(text@.take(index as int) =~= text@.take(index - 1).push(text@[index - 1]));
    }
    assert(text@.take(index as int) =~= text@);
    characters
}

/// What each part of a cut text says, in order.
spec fn model_of_parts(parts: Seq<Vec<char>>) -> Seq<Seq<char>> {
    parts.map_values(|part: Vec<char>| part@)
}

/// `text` cut at every `separator`.
fn split_chars(text: &Vec<char>, separator: char) -> (r: Vec<Vec<char>>)
    ensures
        model_of_parts(r@) == split(text@, separator),
        r@.len() >= 1,
{
    let mut parts: Vec<Vec<char>> = Vec::new();
    let mut part: Vec<char> = Vec::new();
    let mut index: usize = 0;
    assert(text@.take(0) =~= Seq::empty());
    assert(model_of_parts(parts@).push(part@) =~= seq![Seq::<char>::empty()]);
    while index < text.len()
        invariant
            index <= text@.len(),
            model_of_parts(parts@).push(part@) == split(text@.take(index as int), separator),
        decreases text@.len() - index,
    {
        let ghost so_far = model_of_parts(parts@);
        let ghost last = part@;
        let character = text[index];
        assert(text@.take(index + 1).drop_last() =~= text@.take(index as int));
        if character == separator {
            parts.push(part);
            part = Vec::new();
            assert(model_of_parts(parts@) =~= so_far.push(last));
        } else {
            part.push(character);
            assert(so_far.push(part@) =~= so_far.push(last).update(so_far.len() as int, part@));
        }
        index = index + 1;
    }
    assert(text@.take(index as int) =~= text@);
    let ghost so_far = model_of_parts(parts@);
    let ghost last = part@;
    parts.push(part);
    assert(model_of_parts(parts@) =~= so_far.push(last));
    parts
}

/// Whether `text` spells localhost.
fn check_localhost(text: &Vec<char>) -> (r: bool)
    ensures
        r == is_localhost(text@),
{
    text.len() == 9 && (text[0] == 'l' || text[0] == 'L') && (text[1] == 'o' || text[1] == 'O') && (
    text[2] == 'c' || text[2] == 'C') && (text[3] == 'a' || text[3] == 'A') && (text[4] == 'l'
        || text[4] == 'L') && (text[5] == 'h' || text[5] == 'H') && (text[6] == 'o' || text[6]
        == 'O') && (text[7] == 's' || text[7] == 'S') && (text[8] == 't' || text[8] == 'T')
}

/// Whether `text` is an octet.
fn check_octet(text: &Vec<char>) -> (r: bool)
    ensures
        r == is_octet(text@),
{
    if text.len() < 1 || text.len() > 3 {
        return false;
    }
    let mut index: usize = 0;
    while index < text.len()
        invariant
            index <= text@.len(),
            forall|i: int| 0 <= i < index ==> '0' <= #[trigger] text@[i] <= '9',
        decreases text@.len() - index,
    {
        if text[index] < '0' || text[index] > '9' {
            assert(!('0' <= text@[index as int] <= '9'));
            return false;
        }
        index = index + 1;
    }
    if text.len() > 1 && text[0] == '0' {
        return false;
    }
    text.len() != 3 || text[0] == '1' || (text[0] == '2' && (text[1] < '5' || (text[1] == '5'
        && text[2] <= '5')))
}

/// Whether `text` is a loopback IPv4 address.
fn check_loopback_v4(text: &Vec<char>) -> (r: bool)
    ensures
        r == is_loopback_v4(text@),
{
    let parts = split_chars(text, '.');
    let ghost said = model_of_parts(parts@);
    if parts.len() != 4 {
        return false;
    }
    assert(said[0] == parts@[0]@ && said[1] == parts@[1]@ && said[2] == parts@[2]@ && said[3]
        == parts@[3]@);
    let first: &Vec<char> = &parts[0];
    let is_loopback_block = first.len() == 3 && first[0] == '1' && first[1] == '2' && first[2]
        == '7';
    assert(is_loopback_block <==> said[0] == seq!['1', '2', '7']) by {
        if is_loopback_block {
            assert(said[0] =~= seq!['1', '2', '7']);
        }
    }
    is_loopback_block && check_octet(&parts[1]) && check_octet(&parts[2]) && check_octet(&parts[3])
}

/// Whether `text` is a group of zeros that ends in `last_digit`.
fn check_group(text: &Vec<char>, last_digit: char) -> (r: bool)
    ensures
        r == is_group(text@, last_digit),
{
    if text.len() < 1 || text.len() > 4 || text[text.len() - 1] != last_digit {
        return false;
    }
    let mut index: usize = 0;
    while index < text.len() - 1
        invariant
            1 <= text@.len(),
            index <= text@.len() - 1,
            forall|i: int| 0 <= i < index ==> #[trigger] text@[i] == '0',
        decreases text@.len() - index,
    {
        if text[index] != '0' {
            return false;
        }
        index = index + 1;
    }
    true
}

/// How many groups the last part of an address stands for when it ends the
/// address with the value one.
fn count_one_groups(last_part: &Vec<char>) -> (r: usize)
    ensures
        r == one_group_count(last_part@),
{
    if check_group(last_part, '1') {
        return 1;
    }
    let is_dotted_one = last_part.len() == 7 && last_part[0] == '0' && last_part[1] == '.'
        && last_part[2] == '0' && last_part[3] == '.' && last_part[4] == '0' && last_part[5] == '.'
        && last_part[6] == '1';
    if is_dotted_one {
        assert(last_part@ =~= seq!['0', '.', '0', '.', '0', '.', '1']);
        2
    } else {
        0
    }
}

/// Whether every part from `low` up to `high` is a group of zeros.
fn check_zero_groups(parts: &Vec<Vec<char>>, low: usize, high: usize) -> (r: bool)
    requires
        high <= parts@.len(),
    ensures
        r == are_zero_groups(model_of_parts(parts@), low as int, high as int),
{
    let ghost said = model_of_parts(parts@);
    let mut index: usize = low;
    while index < high
        invariant
            said == model_of_parts(parts@),
            high <= parts@.len(),
            low <= index,
            forall|i: int| low <= i < index ==> is_group(#[trigger] said[i], '0'),
        decreases high - index,
    {
        assert(said[index as int] == parts@[index as int]@);
        if !check_group(&parts[index], '0') {
            return false;
        }
        index = index + 1;
    }
    true
}

/// Whether the parts write the loopback address with a gap at `gap`.
fn check_shortened_loopback_v6(parts: &Vec<Vec<char>>, gap: usize) -> (r: bool)
    requires
        1 <= parts@.len(),
        gap < parts@.len(),
    ensures
        r == is_shortened_loopback_v6(model_of_parts(parts@), gap as int),
{
    let ghost said = model_of_parts(parts@);
    let last: usize = parts.len() - 1;
    assert(said[gap as int] == parts@[gap as int]@ && said[0] == parts@[0]@ && said.last()
        == parts@[last as int]@);
    let one_groups: usize = count_one_groups(&parts[last]);
    if gap < 1 || gap >= last || parts[gap].len() != 0 || one_groups == 0 {
        return false;
    }
    if !check_zero_groups(parts, gap + 1, last) {
        return false;
    }
    let zero_groups: usize = last - gap - 1;
    if gap == 1 && parts[0].len() == 0 {
        zero_groups <= 7 - one_groups
    } else {
        check_zero_groups(parts, 0, gap) && gap <= 7 && zero_groups <= 7 && gap + zero_groups
            + one_groups <= 7
    }
}

/// Whether `text` is a spelling of the IPv6 loopback address.
fn check_loopback_v6(text: &Vec<char>) -> (r: bool)
    ensures
        r == is_loopback_v6(text@),
{
    let parts = split_chars(text, ':');
    let ghost said = model_of_parts(parts@);
    let last: usize = parts.len() - 1;
    assert(said.last() == parts@[last as int]@);
    let one_groups: usize = count_one_groups(&parts[last]);
    if one_groups > 0 && last <= 8 && last + one_groups == 8 && check_zero_groups(&parts, 0, last) {
        return true;
    }
    let mut gap: usize = 0;
    while gap < parts.len()
        invariant
            said == model_of_parts(parts@),
            said == split(text@, ':'),
            gap <= parts@.len(),
            forall|tried: int| 0 <= tried < gap ==> !#[trigger] is_shortened_loopback_v6(
                said,
                tried,
            ),
        decreases parts@.len() - gap,
    {
        if check_shortened_loopback_v6(&parts, gap) {
            assert(is_shortened_loopback_v6(said, gap as int));
            return true;
        }
        gap = gap + 1;
    }
    false
}

/// Whether the host that a shell reports is this machine. A shell that reports
/// no host means its own.
///
/// A URI brackets an IPv6 address and some shells write it bare, so both forms
/// count.
pub fn is_local_host(reported_host: Option<&str>) -> (r: bool)
    ensures
        r == match reported_host {
            Some(host) => names_this_machine(host@),
            None => true,
        },
{
    let host = match reported_host {
        Some(host) => host,
        None => {
            return true;
        },
    };
    let mut name = collect_chars(host);
    if name.len() >= 2 && name[0] == '[' && name[name.len() - 1] == ']' {
        name.pop();
        name.remove(0);
        assert(name@ =~= unbracketed(host@));
    }
    check_localhost(&name) || check_loopback_v4(&name) || check_loopback_v6(&name)
}

} // verus!
