//! Text built and searched character by character.
use vstd::prelude::*;

verus! {

/// The texts that a sequence of strings holds, in order.
pub open spec fn texts(strings: Seq<String>) -> Seq<Seq<char>> {
    Seq::new(strings.len(), |i: int| strings[i]@)
}

/// Whether `part` occurs in `text` as one uninterrupted run of characters.
pub open spec fn has_part(text: Seq<char>, part: Seq<char>) -> bool {
    exists|i: int|
        0 <= i <= text.len() - part.len() && #[trigger] text.subrange(i, i + part.len()) == part
}

/// The decimal digit of `n`, a number below ten.
pub open spec fn digit(n: nat) -> char {
    (n + '0' as nat) as char
}

/// `n` written in decimal, without leading zeros.
pub open spec fn decimal(n: nat) -> Seq<char>
    decreases n,
{
    if n < 10 {
        seq![digit(n)]
    } else {
        decimal(n / 10).push(digit(n % 10))
    }
}

/// Every line of `lines`, with `separator` between neighbours.
pub open spec fn joined(lines: Seq<Seq<char>>, separator: Seq<char>) -> Seq<char>
    decreases lines.len(),
{
    if lines.len() == 0 {
        Seq::empty()
    } else if lines.len() == 1 {
        lines[0]
    } else {
        joined(lines.drop_last(), separator) + separator + lines.last()
    }
}

/// The characters of `text`, one after the other.
fn characters(text: &str) -> (result: Vec<char>)
    ensures
        result@ == text@,
{
    let mut result: Vec<char> = Vec::new();
    for c in iter: text.chars()
        invariant
            result@ == iter.seq().take(iter.index() as int),
            iter.seq() == text@,
    {
        result.push(c);
    }
    result
}

/// Whether `part` stands in `text` at position `start`.
fn part_at(text: &Vec<char>, part: &Vec<char>, start: usize) -> (result: bool)
    requires
        start + part.len() <= text.len(),
    ensures
        result == (text@.subrange(start as int, start + part.len()) == part@),
{
    let mut i: usize = 0;
    while i < part.len()
        invariant
            start + part.len() <= text.len(),
            i <= part.len(),
            forall|j: int| 0 <= j < i ==> text@[start + j] == #[trigger] part@[j],
        decreases part.len() - i,
    {
        if text[start + i] != part[i] {
            assert(text@.subrange(start as int, start + part.len())[i as int] != part@[i as int]);
            return false;
        }
        i += 1;
    }
    assert(text@.subrange(start as int, start + part.len()) =~= part@);
    true
}

/// Whether `part` occurs somewhere in `text`.
pub fn contains(text: &str, part: &str) -> (result: bool)
    ensures
        result == has_part(text@, part@),
{
    let haystack: Vec<char> = characters(text);
    let needle: Vec<char> = characters(part);
    if needle.len() > haystack.len() {
        return false;
    }
    let last: usize = haystack.len() - needle.len();
    let mut start: usize = 0;
    while start < last
        invariant
            haystack@ == text@,
            needle@ == part@,
            last == haystack.len() - needle.len(),
            start <= last,
            forall|i: int|
                0 <= i < start ==> #[trigger] text@.subrange(i, i + part@.len()) != part@,
        decreases last - start,
    {
        if part_at(&haystack, &needle, start) {
            return true;
        }
        start += 1;
    }
    part_at(&haystack, &needle, last)
}

/// Whether two texts are the same.
pub fn same(left: &str, right: &str) -> (result: bool)
    ensures
        result == (left@ == right@),
{
    left.to_owned() == right.to_owned()
}

/// The text of a single decimal digit.
fn digit_text(n: u32) -> (result: &'static str)
    requires
        n < 10,
    ensures
        result@ == seq![digit(n as nat)],
{
    proof {
        reveal_strlit("0");
        reveal_strlit("1");
        reveal_strlit("2");
        reveal_strlit("3");
        reveal_strlit("4");
        reveal_strlit("5");
        reveal_strlit("6");
        reveal_strlit("7");
        reveal_strlit("8");
        reveal_strlit("9");
    }
    match n {
        0 => "0",
        1 => "1",
        2 => "2",
        3 => "3",
        4 => "4",
        5 => "5",
        6 => "6",
        7 => "7",
        8 => "8",
        _ => "9",
    }
}

/// `n` written in decimal.
pub fn decimal_text(n: u32) -> (result: String)
    ensures
        result@ == decimal(n as nat),
    decreases n,
{
    if n < 10 {
        digit_text(n).to_owned()
    } else {
        let mut result: String = decimal_text(n / 10);
        result.append(digit_text(n % 10));
        assert(result@ =~= decimal(n as nat));
        result
    }
}

/// Glues the lines of `lines` together, with `separator` between neighbours.
pub fn join(lines: &Vec<String>, separator: &str) -> (result: String)
    ensures
        result@ == joined(texts(lines@), separator@),
{
    let mut result: String = String::new();
    let mut i: usize = 0;
    while i < lines.len()
        invariant
            i <= lines.len(),
            result@ == joined(texts(lines@).take(i as int), separator@),
        decreases lines.len() - i,
    {
        if i != 0 {
            result.append(separator);
        }
        result.append(lines[i].as_str());
        proof {
            let next = texts(lines@).take(i + 1);
            assert(next.drop_last() =~= texts(lines@).take(i as int));
            assert(next.last() == lines@[i as int]@);
            if i == 0 {
                assert(result@ =~= lines@[0]@);
            }
        }
        i += 1;
    }
    assert(texts(lines@).take(lines.len() as int) =~= texts(lines@));
    result
}

/// A copy of a list of texts.
pub fn copy_texts(list: &Vec<String>) -> (result: Vec<String>)
    ensures
        texts(result@) == texts(list@),
{
    let mut result: Vec<String> = Vec::new();
    let mut i: usize = 0;
    while i < list.len()
        invariant
            i <= list.len(),
            result.len() == i,
            forall|j: int| 0 <= j < i ==> (#[trigger] result@[j])@ == list@[j]@,
        decreases list.len() - i,
    {
        result.push(list[i].clone());
        i += 1;
    }
    assert(texts(result@) =~= texts(list@));
    result
}

/// Two numbers with the same decimal text are the same number.
pub proof fn decimal_is_injective(a: nat, b: nat)
    requires
        decimal(a) == decimal(b),
    ensures
        a == b,
    decreases a,
{
    decimal_is_not_empty(a / 10);
    decimal_is_not_empty(b / 10);
    assert(decimal(a).last() == digit(a % 10));
    assert(decimal(b).last() == digit(b % 10));
    assert(digit(a % 10) as nat == a % 10 + '0' as nat);
    assert(digit(b % 10) as nat == b % 10 + '0' as nat);
    assert(a >= 10 ==> decimal(a).len() >= 2);
    assert(b >= 10 ==> decimal(b).len() >= 2);
    if a >= 10 {
        assert(decimal(a).drop_last() =~= decimal(a / 10));
        assert(decimal(b).drop_last() =~= decimal(b / 10));
        decimal_is_injective(a / 10, b / 10);
    }
}

/// Every number has at least one digit.
pub proof fn decimal_is_not_empty(n: nat)
    ensures
        decimal(n).len() >= 1,
    decreases n,
{
    if n >= 10 {
        decimal_is_not_empty(n / 10);
    }
}

/// The texts of a sequence of strings are those of its strings, one for each and in order.
pub proof fn texts_are_in_order(strings: Seq<String>)
    ensures
        texts(strings).len() == strings.len(),
        forall|i: int| 0 <= i < strings.len() ==> #[trigger] texts(strings)[i] == strings[i]@,
{
}

/// A part occurs in a text exactly when the text is something, then the part, then something.
pub proof fn part_has_surroundings(text: Seq<char>, part: Seq<char>)
    ensures
        has_part(text, part) <==> exists|before: Seq<char>, after: Seq<char>|
            text == #[trigger] (before + part + after),
{
    if has_part(text, part) {
        let i = choose|i: int|
            0 <= i <= text.len() - part.len() && #[trigger] text.subrange(i, i + part.len())
                == part;
        let before = text.subrange(0, i);
        let after = text.subrange(i + part.len(), text.len() as int);
        assert(text =~= before + part + after);
    }
    if exists|before: Seq<char>, after: Seq<char>| text == #[trigger] (before + part + after) {
        let (before, after): (Seq<char>, Seq<char>) = choose|
            before: Seq<char>,
            after: Seq<char>,
        |
            text == #[trigger] (before + part + after);
        let i = before.len() as int;
        assert(text.subrange(i, i + part.len()) =~= part);
    }
}

/// Searching finds a part exactly when the text is something, then the part, then something.
pub proof fn search_finds_every_part(text: &str, part: &str, result: bool)
    requires
        call_ensures(contains, (text, part), result),
    ensures
        result <==> exists|before: Seq<char>, after: Seq<char>|
            text@ == #[trigger] (before + part@ + after),
{
    part_has_surroundings(text@, part@);
}

/// The ten digits.
pub proof fn digits_are_written()
    ensures
        decimal(0) == "0"@,
        decimal(1) == "1"@,
        decimal(2) == "2"@,
        decimal(3) == "3"@,
        decimal(4) == "4"@,
        decimal(5) == "5"@,
        decimal(6) == "6"@,
        decimal(7) == "7"@,
        decimal(8) == "8"@,
        decimal(9) == "9"@,
{
    reveal_strlit("0");
    reveal_strlit("1");
    reveal_strlit("2");
    reveal_strlit("3");
    reveal_strlit("4");
    reveal_strlit("5");
    reveal_strlit("6");
    reveal_strlit("7");
    reveal_strlit("8");
    reveal_strlit("9");
    assert(decimal(0) =~= "0"@);
    assert(decimal(1) =~= "1"@);
    assert(decimal(2) =~= "2"@);
    assert(decimal(3) =~= "3"@);
    assert(decimal(4) =~= "4"@);
    assert(decimal(5) =~= "5"@);
    assert(decimal(6) =~= "6"@);
    assert(decimal(7) =~= "7"@);
    assert(decimal(8) =~= "8"@);
    assert(decimal(9) =~= "9"@);
}

/// A number of several digits is written as its tens, then its last digit.
pub proof fn tens_go_before_the_last_digit(tens: nat, last: nat)
    requires
        tens >= 1,
        last < 10,
    ensures
        decimal(10 * tens + last) == decimal(tens) + decimal(last),
{
    assert((10 * tens + last) / 10 == tens);
    assert((10 * tens + last) % 10 == last);
    assert(decimal(10 * tens + last) =~= decimal(tens) + decimal(last));
}

/// Glueing nothing gives nothing, a single line stays as it is, and each further line comes after
/// a separator.
pub proof fn further_line_is_appended(
    lines: &Vec<String>,
    more: &Vec<String>,
    separator: &str,
    left: String,
    right: String,
)
    requires
        call_ensures(join, (lines, separator), left),
        call_ensures(join, (more, separator), right),
        more.len() == lines.len() + 1,
        forall|i: int| 0 <= i < lines.len() ==> more@[i]@ == (#[trigger] lines@[i])@,
    ensures
        lines.len() == 0 ==> left@.len() == 0 && right@ == more@[0]@,
        lines.len() >= 1 ==> right@ == left@ + separator@ + more@[lines.len() as int]@,
{
    assert(texts(more@).drop_last() =~= texts(lines@));
}

/// A copy of a list holds the same texts, in the same order.
pub proof fn copy_holds_every_text(list: &Vec<String>, result: Vec<String>)
    requires
        call_ensures(copy_texts, (list,), result),
    ensures
        result.len() == list.len(),
        forall|i: int| 0 <= i < list.len() ==> (#[trigger] result@[i])@ == list@[i]@,
{
    equal_texts(result@, list@);
}

/// Sequences of strings with equal texts are as long as each other, and hold the same text at each
/// position.
pub proof fn equal_texts(left: Seq<String>, right: Seq<String>)
    requires
        texts(left) == texts(right),
    ensures
        left.len() == right.len(),
        forall|i: int| 0 <= i < left.len() ==> (#[trigger] left[i])@ == right[i]@,
{
    texts_are_in_order(left);
    texts_are_in_order(right);
    assert forall|i: int| 0 <= i < left.len() implies (#[trigger] left[i])@ == right[i]@ by {
        assert(texts(left)[i] == texts(right)[i]);
    }
}

/// A number below ten is written as its digit, and any other as what its tens are written as,
/// then its last digit.
pub proof fn numbers_are_written_digit_by_digit(
    n: u32,
    result: String,
    tens: String,
    last: String,
)
    requires
        call_ensures(decimal_text, (n,), result),
        call_ensures(decimal_text, ((n / 10) as u32,), tens),
        call_ensures(decimal_text, ((n % 10) as u32,), last),
    ensures
        n >= 10 ==> result@ == tens@ + last@,
        n == 0 ==> result@ == "0"@,
        n == 1 ==> result@ == "1"@,
        n == 2 ==> result@ == "2"@,
        n == 3 ==> result@ == "3"@,
        n == 4 ==> result@ == "4"@,
        n == 5 ==> result@ == "5"@,
        n == 6 ==> result@ == "6"@,
        n == 7 ==> result@ == "7"@,
        n == 8 ==> result@ == "8"@,
        n == 9 ==> result@ == "9"@,
{
    digits_are_written();
    if n >= 10 {
        tens_go_before_the_last_digit((n / 10) as nat, (n % 10) as nat);
        assert(10 * (n / 10) + n % 10 == n);
    }
}

/// Texts are the same exactly when they are as long as each other and have the same character at
/// each position.
pub proof fn same_texts_have_the_same_characters(left: &str, right: &str, result: bool)
    requires
        call_ensures(same, (left, right), result),
    ensures
        result <==> {
            &&& left@.len() == right@.len()
            &&& forall|i: int| 0 <= i < left@.len() ==> #[trigger] left@[i] == right@[i]
        },
{
    if left@.len() == right@.len() && forall|i: int|
        0 <= i < left@.len() ==> #[trigger] left@[i] == right@[i] {
        assert(left@ =~= right@);
    }
}

} // verus!
