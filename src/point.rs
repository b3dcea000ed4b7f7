use vstd::prelude::*;
use vstd::string::StrSliceExecFns;
use vstd::string::StringExecFns;

use crate::error::Error;

verus! {

/// A position in the processed stream: the stream's origin, or a slot
/// number together with the hash of the block at that slot.
#[derive(Debug, PartialEq, Eq)]
pub enum PointArg {
    Origin,
    Specific(u64, String),
}

/// What a position is, with the hash as a sequence of characters.
pub enum PointModel {
    Origin,
    Specific(u64, Seq<char>),
}

impl View for PointArg {
    type V = PointModel;

    open spec fn view(&self) -> PointModel {
        match self {
            PointArg::Origin => PointModel::Origin,
            PointArg::Specific(slot, hash) => PointModel::Specific(*slot, hash@),
        }
    }
}

impl Clone for PointArg {
    fn clone(&self) -> (r: Self)
        ensures
            r == *self,
    {
        match self {
            PointArg::Origin => PointArg::Origin,
            PointArg::Specific(slot, hash) => PointArg::Specific(*slot, hash.clone()),
        }
    }
}

pub open spec fn digit_char(d: int) -> char {
    seq!['0', '1', '2', '3', '4', '5', '6', '7', '8', '9'][d]
}

pub open spec fn is_digit(c: char) -> bool {
    '0' <= c && c <= '9'
}

pub open spec fn digit_value(c: char) -> int {
    (c as u32) as int - ('0' as u32) as int
}

pub open spec fn all_digits(s: Seq<char>) -> bool {
    forall|i: int| 0 <= i < s.len() ==> is_digit(#[trigger] s[i])
}

/// The shortest decimal notation of `n`.
pub open spec fn decimal(n: nat) -> Seq<char>
    decreases n,
{
    if n < 10 {
        seq![digit_char(n as int)]
    } else {
        decimal(n / 10).push(digit_char((n % 10) as int))
    }
}

/// The number that a string of decimal digits denotes (leading zeros allowed).
pub open spec fn digits_value(s: Seq<char>) -> nat
    decreases s.len(),
{
    if s.len() == 0 {
        0
    } else {
        digits_value(s.drop_last()) * 10 + digit_value(s.last()) as nat
    }
}

pub open spec fn origin_text() -> Seq<char> {
    seq!['o', 'r', 'i', 'g', 'i', 'n']
}

/// The canonical text of a position: `origin`, or `<slot>,<hash>`.
pub open spec fn point_text(p: PointModel) -> Seq<char> {
    match p {
        PointModel::Origin => origin_text(),
        PointModel::Specific(slot, hash) => decimal(slot as nat) + seq![','] + hash,
    }
}

pub open spec fn is_first_comma(s: Seq<char>, i: int) -> bool {
    0 <= i < s.len() && s[i] == ',' && forall|k: int| 0 <= k < i ==> s[k] != ','
}

/// Where the first comma of `s` stands, or -1 where `s` holds none.
pub open spec fn comma_pos(s: Seq<char>) -> int {
    if exists|i: int| is_first_comma(s, i) {
        choose|i: int| is_first_comma(s, i)
    } else {
        -1
    }
}

/// The text before the first comma, read as a slot.
pub open spec fn slot_text(s: Seq<char>) -> Seq<char> {
    s.take(comma_pos(s))
}

/// Whether `s` is the text of a position: `origin`, or a non-empty decimal
/// slot that fits in 64 bits, a comma, and the hash (everything after the
/// first comma).
pub open spec fn is_point_text(s: Seq<char>) -> bool {
    if comma_pos(s) >= 0 {
        slot_text(s).len() > 0 && all_digits(slot_text(s)) && digits_value(slot_text(s))
            <= u64::MAX
    } else {
        s == origin_text()
    }
}

/// The position that a text satisfying `is_point_text` denotes.
pub open spec fn point_of_text(s: Seq<char>) -> PointModel {
    if comma_pos(s) >= 0 {
        PointModel::Specific(digits_value(slot_text(s)) as u64, s.skip(comma_pos(s) + 1))
    } else {
        PointModel::Origin
    }
}

proof fn lemma_first_comma_unique(s: Seq<char>, i: int)
    requires
        is_first_comma(s, i),
    ensures
        comma_pos(s) == i,
{
    let j = comma_pos(s);
    assert(is_first_comma(s, j));
    if j < i {
        assert(s[j] != ',');
    } else if i < j {
        assert(s[i] != ',');
    }
}

proof fn lemma_no_comma(s: Seq<char>)
    requires
        forall|k: int| 0 <= k < s.len() ==> s[k] != ',',
    ensures
        comma_pos(s) == -1,
{
}

proof fn lemma_decimal(n: nat)
    ensures
        decimal(n).len() > 0,
        all_digits(decimal(n)),
        digits_value(decimal(n)) == n,
    decreases n,
{
    if n >= 10 {
        lemma_decimal(n / 10);
        let d = decimal(n);
        assert(d.drop_last() =~= decimal(n / 10));
        assert(d.last() == digit_char((n % 10) as int));
        assert(digit_value(digit_char((n % 10) as int)) == n % 10);
        assert(digits_value(d) == digits_value(decimal(n / 10)) * 10 + n % 10);
        assert(n == (n / 10) * 10 + n % 10);
        assert forall|i: int| 0 <= i < d.len() implies is_digit(#[trigger] d[i]) by {
            if i < d.len() - 1 {
                assert(d[i] == decimal(n / 10)[i]);
            }
        }
    } else {
        assert(digit_value(digit_char(n as int)) == n);
        assert(decimal(n).drop_last() =~= Seq::<char>::empty());
        assert(digits_value(Seq::<char>::empty()) == 0);
    }
}

proof fn lemma_digits_value_grows(t: Seq<char>, k: int)
    requires
        0 <= k <= t.len(),
    ensures
        digits_value(t.take(k)) <= digits_value(t),
    decreases t.len(),
{
    if k < t.len() {
        assert(t.drop_last().take(k) =~= t.take(k));
        lemma_digits_value_grows(t.drop_last(), k);
    } else {
        assert(t.take(k) =~= t);
    }
}

/// Appends the decimal digit `d` to `s`.
fn push_digit(s: &mut String, d: u64)
    requires
        d < 10,
    ensures
        final(s)@ == old(s)@.push(digit_char(d as int)),
{
    proof {
        reveal_strlit("0");
        reveal_strlit("1");
        reveal_strlit("2");
        reveal_strlit("3");
        reveal_strlit("4");
        reveal_strlit("5");
        reveal_strlit("6");
        reveal_strlit("7");
        reveal_strlit("8");
        reveal_strlit("9");
    }
    let ghost before = s@;
    match d {
        0 => s.append("0"),
        1 => s.append("1"),
        2 => s.append("2"),
        3 => s.append("3"),
        4 => s.append("4"),
        5 => s.append("5"),
        6 => s.append("6"),
        7 => s.append("7"),
        8 => s.append("8"),
        _ => s.append("9"),
    }
    assert(s@ =~= before.push(digit_char(d as int)));
}

/// Appends the decimal notation of `n` to `s`.
fn push_decimal(s: &mut String, n: u64)
    ensures
        final(s)@ == old(s)@ + decimal(n as nat),
    decreases n,
{
    let ghost before = s@;
    if n >= 10 {
        push_decimal(s, n / 10);
    }
    push_digit(s, n % 10);
    assert(s@ =~= before + decimal(n as nat));
}

/// Whether `s` reads `origin`.
fn is_origin(s: &str) -> (r: bool)
    ensures
        r == (s@ == origin_text()),
{
    if s.unicode_len() != 6 {
        return false;
    }
    let r = s.get_char(0) == 'o' && s.get_char(1) == 'r' && s.get_char(2) == 'i'
        && s.get_char(3) == 'g' && s.get_char(4) == 'i' && s.get_char(5) == 'n';
    if r {
        assert(s@ =~= origin_text());
    }
    r
}

/// Reads the first `end` characters of `s` as a decimal number.
fn parse_slot(s: &str, end: usize) -> (r: Option<u64>)
    requires
        end <= s@.len(),
    ensures
        r is Some <==> (end > 0 && all_digits(s@.take(end as int)) && digits_value(
            s@.take(end as int),
        ) <= u64::MAX),
        r matches Some(v) ==> v == digits_value(s@.take(end as int)),
{
    if end == 0 {
        return None;
    }
    let mut v: u64 = 0;
    let mut j: usize = 0;
    while j < end
        invariant
            j <= end <= s@.len(),
            all_digits(s@.take(j as int)),
            v == digits_value(s@.take(j as int)),
        decreases end - j,
    {
        let c = s.get_char(j);
        assert(s@.take(j as int + 1).drop_last() =~= s@.take(j as int));
        if c < '0' || c > '9' {
            assert(s@.take(end as int)[j as int] == c);
            return None;
        }
        let d = (c as u32 - '0' as u32) as u64;
        let next = match v.checked_mul(10) {
            Some(t) => t.checked_add(d),
            None => None,
        };
        match next {
            Some(w) => {
                v = w;
            },
            None => {
                proof {
                    assert(s@.take(end as int).take(j as int + 1) =~= s@.take(j as int + 1));
                    lemma_digits_value_grows(s@.take(end as int), j as int + 1);
                }
                return None;
            },
        }
        j += 1;
    }
    assert(s@.take(j as int) =~= s@.take(end as int));
    Some(v)
}

impl PointArg {
    /// The canonical text of the position.
    pub fn to_string(&self) -> (r: String)
        ensures
            r@ == point_text(self@),
    {
        match self {
            PointArg::Origin => {
                proof {
                    reveal_strlit("origin");
                }
                let r = String::from_str("origin");
                assert(r@ =~= origin_text());
                r
            },
            PointArg::Specific(slot, hash) => {
                let mut r = String::new();
                push_decimal(&mut r, *slot);
                proof {
                    reveal_strlit(",");
                }
                r.append(",");
                r.append(hash.as_str());
                assert(r@ =~= point_text(self@));
                r
            },
        }
    }

    /// Reads a position from its text: `origin`, or a decimal slot, a comma
    /// and the hash, which is everything after the first comma.
    pub fn parse(s: &str) -> (r: Result<PointArg, Error>)
        ensures
            r is Ok <==> is_point_text(s@),
            r matches Ok(p) ==> p@ == point_of_text(s@),
            r matches Err(e) ==> e is ParseError,
    {
        let n = s.unicode_len();
        let mut i: usize = 0;
        while i < n && s.get_char(i) != ','
            invariant
                i <= n,
                n == s@.len(),
                forall|k: int| 0 <= k < i ==> s@[k] != ',',
            decreases n - i,
        {
            i += 1;
        }
        if i == n {
            proof {
                lemma_no_comma(s@);
            }
            if is_origin(s) {
                Ok(PointArg::Origin)
            } else {
                Err(Error::ParseError(String::from_str("expected `slot,hash` or `origin`")))
            }
        } else {
            proof {
                lemma_first_comma_unique(s@, i as int);
            }
            match parse_slot(s, i) {
                Some(slot) => {
                    let hash = String::from_str(s.substring_char(i + 1, n));
                    assert(hash@ =~= s@.skip(i as int + 1));
                    Ok(PointArg::Specific(slot, hash))
                },
                None => Err(Error::ParseError(String::from_str("invalid slot number"))),
            }
        }
    }
}

/// Parsing the canonical text of any position gives that position back.
pub proof fn lemma_round_trip(p: PointArg)
    ensures
        is_point_text(point_text(p@)),
        point_of_text(point_text(p@)) == p@,
{
    match p@ {
        PointModel::Origin => {
            let t = origin_text();
            assert forall|k: int| 0 <= k < t.len() implies t[k] != ',' by {}
            lemma_no_comma(t);
        },
        PointModel::Specific(slot, hash) => {
            let d = decimal(slot as nat);
            let t = point_text(p@);
            lemma_decimal(slot as nat);
            assert forall|k: int| 0 <= k < d.len() implies t[k] != ',' by {
                assert(t[k] == d[k]);
                assert(is_digit(d[k]));
            }
            assert(is_first_comma(t, d.len() as int));
            lemma_first_comma_unique(t, d.len() as int);
            assert(slot_text(t) =~= d);
            assert(t.skip(d.len() as int + 1) =~= hash);
        },
    }
}

} // verus!
