//! Work items and the textual identifiers they are read from.

use vstd::prelude::*;
use vstd::string::StringExecFns;

verus! {

/// One validated identifier, ready to be forwarded.
#[derive(Clone, Copy, Debug, PartialEq, Eq, Hash, Structural)]
pub struct WorkItem {
    id: u32,
}

impl View for WorkItem {
    type V = nat;

    closed spec fn view(&self) -> nat {
        self.id as nat
    }
}

/// A raw identifier that was refused, with the text as it was received.
#[derive(Clone, Debug, PartialEq, Eq)]
pub struct InvalidIdentifier {
    pub raw: String,
}

/// The outcome of reading a batch of raw identifiers.
#[derive(Clone, Debug, PartialEq, Eq)]
pub struct Parsed {
    /// The work items of the valid entries, in the order of the batch.
    pub items: Vec<WorkItem>,
    /// The entries that were refused, in the order of the batch.
    pub rejected: Vec<InvalidIdentifier>,
}

impl Parsed {
    /// The raw texts of the refused entries.
    pub open spec fn rejected_texts(self) -> Seq<Seq<char>> {
        self.rejected@.map_values(|refusal: InvalidIdentifier| refusal.raw@)
    }
}

/// The largest value an identifier can take.
pub open spec fn max_identifier() -> nat {
    u32::MAX as nat
}

/// `c` is one of the ten decimal digits.
pub open spec fn is_digit(c: char) -> bool {
    '0' <= c && c <= '9'
}

/// The number a decimal digit stands for.
pub open spec fn digit_value(c: char) -> nat {
    (c as u32 - '0' as u32) as nat
}

/// Every character of `s` is a decimal digit.
pub open spec fn all_digits(s: Seq<char>) -> bool {
    forall|i: int| 0 <= i < s.len() ==> is_digit(#[trigger] s[i])
}

/// The number written by the digits of `s`, most significant first.
pub open spec fn decimal_value(s: Seq<char>) -> nat
    decreases s.len(),
{
    if s.len() == 0 {
        0
    } else {
        decimal_value(s.drop_last()) * 10 + digit_value(s.last())
    }
}

/// The validation rule: at least one decimal digit and nothing else, writing
/// a number that fits the identifier width. The empty text, a text with any
/// other character (a sign, a blank, a letter) and a number beyond that width
/// are no identifiers.
pub open spec fn is_identifier(s: Seq<char>) -> bool {
    &&& s.len() > 0
    &&& all_digits(s)
    &&& decimal_value(s) <= max_identifier()
}

/// The identifier a raw text stands for, if it stands for one.
pub open spec fn identifier_of(s: Seq<char>) -> Option<nat> {
    if is_identifier(s) {
        Some(decimal_value(s))
    } else {
        None
    }
}

/// The character that writes the digit `d`.
pub open spec fn digit_char(d: nat) -> char {
    (d + 48) as u8 as char
}

/// The decimal text of `n`: no sign, no leading zero but for zero itself.
pub open spec fn decimal_digits(n: nat) -> Seq<char>
    decreases n,
{
    if n < 10 {
        seq![digit_char(n)]
    } else {
        decimal_digits(n / 10).push(digit_char(n % 10))
    }
}

/// The identifiers that a sequence of raw texts yields, in their order.
pub open spec fn accepted(texts: Seq<Seq<char>>) -> Seq<nat> {
    texts.filter_map(|s: Seq<char>| identifier_of(s))
}

/// The raw texts that are refused, in their order.
pub open spec fn refused(texts: Seq<Seq<char>>) -> Seq<Seq<char>> {
    texts.filter(|s: Seq<char>| !is_identifier(s))
}

/// The texts held by a sequence of strings.
pub open spec fn texts_of(raw: Seq<String>) -> Seq<Seq<char>> {
    raw.map_values(|s: String| s@)
}

/// The identifiers held by a sequence of work items.
pub open spec fn ids_of(items: Seq<WorkItem>) -> Seq<nat> {
    items.map_values(|item: WorkItem| item@)
}

/// A longer digit string never writes a smaller number than its prefix.
pub proof fn lemma_decimal_value_prefix(s: Seq<char>, n: int)
    requires
        0 <= n <= s.len(),
    ensures
        decimal_value(s.take(n)) <= decimal_value(s),
    decreases s.len() - n,
{
    if n == s.len() {
        assert(s.take(n) =~= s);
    } else {
        lemma_decimal_value_prefix(s, n + 1);
        assert(s.take(n + 1).drop_last() =~= s.take(n));
    }
}

/// What one more raw text adds to the accepted and to the refused.
pub proof fn lemma_one_more_text(texts: Seq<Seq<char>>, s: Seq<char>)
    ensures
        accepted(texts.push(s)) == match identifier_of(s) {
            Some(id) => accepted(texts).push(id),
            None => accepted(texts),
        },
        refused(texts.push(s)) == if is_identifier(s) {
            refused(texts)
        } else {
            refused(texts).push(s)
        },
{
    reveal(Seq::filter);
    assert(texts.push(s).drop_last() =~= texts);
    match identifier_of(s) {
        Some(id) => {
            assert(accepted(texts) + seq![id] =~= accepted(texts).push(id));
        },
        None => {},
    }
}

/// The decimal text of an identifier reads back as that identifier.
pub proof fn lemma_text_reads_back(n: nat)
    requires
        n <= max_identifier(),
    ensures
        identifier_of(decimal_digits(n)) == Some(n),
{
    lemma_decimal_digits(n);
}

/// The decimal text of a number is made of digits and writes that number.
pub proof fn lemma_decimal_digits(n: nat)
    ensures
        decimal_digits(n).len() > 0,
        all_digits(decimal_digits(n)),
        decimal_value(decimal_digits(n)) == n,
    decreases n,
{
    let text = decimal_digits(n);
    if n < 10 {
        assert(text.drop_last() =~= Seq::<char>::empty());
        assert(decimal_value(text.drop_last()) == 0);
    } else {
        lemma_decimal_digits(n / 10);
        assert(text.drop_last() =~= decimal_digits(n / 10));
    }
}

impl WorkItem {
    /// An identifier never exceeds the identifier width.
    pub proof fn lemma_fits(self)
        ensures
            self@ <= max_identifier(),
    {
    }

    /// The work item with the given identifier.
    pub fn new(id: u32) -> (item: WorkItem)
        ensures
            item@ == id,
    {
        WorkItem { id }
    }

    /// The identifier as a number.
    pub fn id(&self) -> (id: u32)
        ensures
            id == self@,
    {
        self.id
    }

    /// The identifier as decimal text, the form in which it is forwarded.
    /// The text reads back as the identifier.
    pub fn text(&self) -> (text: String)
        ensures
            text@ == decimal_digits(self@),
            identifier_of(text@) == Some(self@),
    {
        proof {
            lemma_text_reads_back(self@);
        }
        let mut text = String::new();
        push_decimal(&mut text, self.id as u64);
        text
    }
}

/// Reads one raw identifier: the work item it stands for, or the refusal of
/// a text that is no identifier.
pub fn parse_identifier(raw: &str) -> (parsed: Result<WorkItem, InvalidIdentifier>)
    ensures
        match parsed {
            Ok(item) => identifier_of(raw@) == Some(item@),
            Err(refused) => identifier_of(raw@) is None && refused.raw@ == raw@,
        },
{
    let mut value: u32 = 0;
    let mut any: bool = false;
    for c in it: raw.chars()
        invariant
            it.seq() == raw@,
            any == (it.index() > 0),
            all_digits(raw@.take(it.index())),
            value == decimal_value(raw@.take(it.index())),
    {
        let ghost at = it.index();
        assert(c == raw@[at]);
        if '0' <= c && c <= '9' {
            let digit: u64 = (c as u32 - '0' as u32) as u64;
            let next: u64 = value as u64 * 10 + digit;
            proof {
                assert(raw@.take(at + 1).drop_last() =~= raw@.take(at));
                assert(decimal_value(raw@.take(at + 1)) == next);
            }
            if next > u32::MAX as u64 {
                proof {
                    lemma_decimal_value_prefix(raw@, at + 1);
                }
                return Err(InvalidIdentifier { raw: raw.to_owned() });
            }
            value = next as u32;
            any = true;
        } else {
            assert(!is_digit(raw@[at]));
            return Err(InvalidIdentifier { raw: raw.to_owned() });
        }
    }
    proof {
        assert(raw@.take(raw@.len() as int) =~= raw@);
    }
    if any {
        Ok(WorkItem { id: value })
    } else {
        Err(InvalidIdentifier { raw: raw.to_owned() })
    }
}

/// Reads a batch of raw identifiers: the valid ones become work items, the
/// others are set aside for a warning. Neither stops the batch.
pub fn parse_identifiers(raw: &Vec<String>) -> (parsed: Parsed)
    ensures
        ids_of(parsed.items@) == accepted(texts_of(raw@)),
        parsed.rejected_texts() == refused(texts_of(raw@)),
{
    let mut parsed = Parsed { items: Vec::new(), rejected: Vec::new() };
    let mut i: usize = 0;
    proof {
        reveal(Seq::filter);
        assert(texts_of(raw@).take(0) =~= Seq::<Seq<char>>::empty());
    }
    while i < raw.len()
        invariant
            i <= raw.len(),
            ids_of(parsed.items@) =~= accepted(texts_of(raw@).take(i as int)),
            parsed.rejected_texts() =~= refused(texts_of(raw@).take(i as int)),
        decreases raw.len() - i,
    {
        proof {
            let texts = texts_of(raw@);
            assert(texts.take(i + 1) =~= texts.take(i as int).push(raw@[i as int]@));
            lemma_one_more_text(texts.take(i as int), raw@[i as int]@);
        }
        match parse_identifier(raw[i].as_str()) {
            Ok(item) => {
                parsed.items.push(item);
            },
            Err(refusal) => {
                parsed.rejected.push(refusal);
            },
        }
        i += 1;
    }
    proof {
        assert(texts_of(raw@).take(raw.len() as int) =~= texts_of(raw@));
    }
    parsed
}

/// The text of one decimal digit.
fn digit_text(d: u64) -> (text: &'static str)
    requires
        d < 10,
    ensures
        text@ == seq![digit_char(d as nat)],
{
    proof {
        reveal_strlit("0");
        reveal_strlit("1");
        reveal_strlit("2");
        reveal_strlit("3");
        reveal_strlit("4");
        reveal_strlit("5");
        reveal_strlit("6");
        reveal_strlit("7");
        reveal_strlit("8");
        reveal_strlit("9");
    }
    let text = match d {
        0 => "0",
        1 => "1",
        2 => "2",
        3 => "3",
        4 => "4",
        5 => "5",
        6 => "6",
        7 => "7",
        8 => "8",
        _ => "9",
    };
    assert(text@ =~= seq![digit_char(d as nat)]);
    text
}

/// Appends the decimal text of `n` to `text`.
pub fn push_decimal(text: &mut String, n: u64)
    ensures
        final(text)@ == old(text)@ + decimal_digits(n as nat),
    decreases n,
{
    if n >= 10 {
        push_decimal(text, n / 10);
    }
    text.append(digit_text(n % 10));
}

} // verus!
