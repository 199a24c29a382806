use vstd::prelude::*;

verus! {

/// Character of a decimal digit.
pub open spec fn digit_char(d: nat) -> char {
    if d == 0 {
        '0'
    } else if d == 1 {
        '1'
    } else if d == 2 {
        '2'
    } else if d == 3 {
        '3'
    } else if d == 4 {
        '4'
    } else if d == 5 {
        '5'
    } else if d == 6 {
        '6'
    } else if d == 7 {
        '7'
    } else if d == 8 {
        '8'
    } else {
        '9'
    }
}

/// Decimal digits of a natural number, most significant first, without leading zeros.
pub open spec fn digits(n: nat) -> Seq<char>
    decreases n,
{
    if n < 10 {
        seq![digit_char(n)]
    } else {
        digits(n / 10) + seq![digit_char(n % 10)]
    }
}

/// Canonical decimal text of an integer: a minus sign for negative values, then the digits.
pub open spec fn decimal(n: int) -> Seq<char> {
    if n < 0 {
        seq!['-'] + digits((-n) as nat)
    } else {
        digits(n as nat)
    }
}

/// A scalar parameter value.
#[derive(Debug)]
pub enum Scalar {
    /// Text, rendered as it is, without quotes.
    Str(String),
    /// An integer, rendered in decimal.
    Int(i64),
    /// A boolean, rendered as `true` or `false`.
    Bool(bool),
}

impl Scalar {
    /// Textual form of the value in an encoded parameter list.
    pub open spec fn text(&self) -> Seq<char> {
        match self {
            Scalar::Str(s) => s@,
            Scalar::Int(n) => decimal(*n as int),
            Scalar::Bool(b) => if *b {
                "true"@
            } else {
                "false"@
            },
        }
    }

    /// Renders the value as it appears in an encoded parameter list.
    pub fn render(&self) -> (r: String)
        ensures
            r@ == self.text(),
    {
        match self {
            Scalar::Str(s) => s.clone(),
            Scalar::Int(n) => decimal_text(*n),
            Scalar::Bool(b) => if *b {
                String::from_str("true")
            } else {
                String::from_str("false")
            },
        }
    }
}

/// `key=value` for one entry.
pub open spec fn entry_text(key: Seq<char>, value: Scalar) -> Seq<char> {
    key + "="@ + value.text()
}

/// The entries rendered as `key=value`, in order, joined by `&`.
pub open spec fn encoded(entries: Seq<(Seq<char>, Scalar)>) -> Seq<char>
    decreases entries.len(),
{
    if entries.len() == 0 {
        Seq::empty()
    } else if entries.len() == 1 {
        entry_text(entries[0].0, entries[0].1)
    } else {
        encoded(entries.drop_last()) + "&"@ + entry_text(
            entries.last().0,
            entries.last().1,
        )
    }
}

/// `application/x-www-form-urlencoded` escaping of a text's UTF-8 bytes.
pub uninterp spec fn form_escape(s: Seq<char>) -> Seq<char>;

/// Relies on `form_urlencoded::byte_serialize`: escapes the bytes of `s` for a
/// form-encoded body or query (a space becomes `+`, other reserved bytes
/// `%XX`); the result depends on the text alone.
#[verifier::external_body]
fn form_escaped(s: &str) -> (r: String)
    ensures
        r@ == form_escape(s@),
{
    form_urlencoded::byte_serialize(s.as_bytes()).collect()
}

/// `key=value` for one entry, both sides escaped.
pub open spec fn escaped_entry_text(key: Seq<char>, value: Scalar) -> Seq<char> {
    form_escape(key) + "="@ + form_escape(value.text())
}

/// The entries rendered as escaped `key=value`, in order, joined by `&`.
pub open spec fn escaped(entries: Seq<(Seq<char>, Scalar)>) -> Seq<char>
    decreases entries.len(),
{
    if entries.len() == 0 {
        Seq::empty()
    } else if entries.len() == 1 {
        escaped_entry_text(entries[0].0, entries[0].1)
    } else {
        escaped(entries.drop_last()) + "&"@ + escaped_entry_text(
            entries.last().0,
            entries.last().1,
        )
    }
}

/// Whether no key occurs twice among the entries.
pub open spec fn keys_distinct(entries: Seq<(Seq<char>, Scalar)>) -> bool {
    forall|i: int, j: int|
        0 <= i < j < entries.len() ==> #[trigger] entries[i].0 != #[trigger] entries[j].0
}

/// A bag of request parameters: a mapping from keys to scalar values that keeps
/// the order in which keys were first inserted.
#[derive(Debug)]
pub struct Params {
    entries: Vec<(String, Scalar)>,
}

impl View for Params {
    type V = Seq<(Seq<char>, Scalar)>;

    closed spec fn view(&self) -> Seq<(Seq<char>, Scalar)> {
        self.entries@.map_values(|e: (String, Scalar)| (e.0@, e.1))
    }
}

impl Params {
    /// Keys are distinct.
    pub open spec fn wf(&self) -> bool {
        keys_distinct(self@)
    }

    /// An empty bag.
    pub fn new() -> (r: Params)
        ensures
            r.wf(),
            r@ == Seq::<(Seq<char>, Scalar)>::empty(),
    {
        let r = Params { entries: Vec::new() };
        assert(r@ =~= Seq::<(Seq<char>, Scalar)>::empty());
        r
    }

    /// Number of entries.
    pub fn len(&self) -> (r: usize)
        ensures
            r == self@.len(),
    {
        self.entries.len()
    }

    /// Position of `key` among the entries, if it is there.
    pub fn position(&self, key: &String) -> (r: Option<usize>)
        ensures
            match r {
                Some(i) => i < self@.len() && self@[i as int].0 == key@,
                None => forall|i: int| 0 <= i < self@.len() ==> #[trigger] self@[i].0 != key@,
            },
    {
        let mut i: usize = 0;
        while i < self.entries.len()
            invariant
                i <= self.entries@.len(),
                forall|j: int| 0 <= j < i ==> #[trigger] self@[j].0 != key@,
            decreases self.entries@.len() - i,
        {
            if self.entries[i].0 == *key {
                return Some(i);
            }
            i = i + 1;
        }
        None
    }

    /// Sets `key` to `value`: an existing key keeps its place and takes the new
    /// value; a new key is appended.
    pub fn insert(&mut self, key: &str, value: Scalar)
        requires
            old(self).wf(),
        ensures
            final(self).wf(),
            match position_of(old(self)@, key@) {
                Some(i) => final(self)@ == old(self)@.update(i, (key@, value)),
                None => final(self)@ == old(self)@.push((key@, value)),
            },
    {
        let key = String::from_str(key);
        match self.position(&key) {
            Some(i) => {
                proof {
                    lemma_position_unique(self@, key@, i as int);
                }
                self.entries.set(i, (key, value));
                assert(self@ =~= old(self)@.update(i as int, (key@, value)));
            },
            None => {
                proof {
                    lemma_no_position(self@, key@);
                }
                self.entries.push((key, value));
                assert(self@ =~= old(self)@.push((key@, value)));
            },
        }
    }

    /// Renders the bag as `key=value` entries joined by `&`, without escaping.
    pub fn encode(&self) -> (r: String)
        ensures
            r@ == encoded(self@),
    {
        let mut out = String::new();
        let mut i: usize = 0;
        while i < self.entries.len()
            invariant
                i <= self.entries@.len(),
                out@ == encoded(self@.take(i as int)),
            decreases self.entries@.len() - i,
        {
            let ghost prefix = self@.take(i as int);
            let ghost next = self@.take(i + 1);
            if i > 0 {
                out.append("&");
            }
            out.append(self.entries[i].0.as_str());
            out.append("=");
            let v = self.entries[i].1.render();
            out.append(v.as_str());
            proof {
                assert(next.drop_last() =~= prefix);
                if i == 0 {
                    assert(prefix =~= Seq::<(Seq<char>, Scalar)>::empty());
                }
                assert(out@ =~= encoded(next));
            }
            i = i + 1;
        }
        assert(self@.take(i as int) =~= self@);
        out
    }

    /// Renders the bag as `key=value` entries joined by `&`, with keys and
    /// values form-escaped, so that reserved characters survive.
    pub fn encode_escaped(&self) -> (r: String)
        ensures
            r@ == escaped(self@),
    {
        let mut out = String::new();
        let mut i: usize = 0;
        while i < self.entries.len()
            invariant
                i <= self.entries@.len(),
                out@ == escaped(self@.take(i as int)),
            decreases self.entries@.len() - i,
        {
            let ghost prefix = self@.take(i as int);
            let ghost next = self@.take(i + 1);
            if i > 0 {
                out.append("&");
            }
            let k = form_escaped(self.entries[i].0.as_str());
            out.append(k.as_str());
            out.append("=");
            let v = self.entries[i].1.render();
            let v = form_escaped(v.as_str());
            out.append(v.as_str());
            proof {
                assert(next.drop_last() =~= prefix);
                if i == 0 {
                    assert(prefix =~= Seq::<(Seq<char>, Scalar)>::empty());
                }
                assert(out@ =~= escaped(next));
            }
            i = i + 1;
        }
        assert(self@.take(i as int) =~= self@);
        out
    }
}

/// Encoding joins entries with `&`: appending an entry to a non-empty list
/// appends `&` and that entry's `key=value`; a single entry is its own
/// `key=value`.
pub proof fn encoded_append(entries: Seq<(Seq<char>, Scalar)>, key: Seq<char>, value: Scalar)
    ensures
        entries.len() > 0 ==> encoded(entries.push((key, value))) == encoded(entries) + "&"@
            + entry_text(key, value),
        encoded(seq![(key, value)]) == entry_text(key, value),
{
    assert(entries.push((key, value)).drop_last() =~= entries);
}

/// A text value is written as it is, with no quotes around it; an integer in
/// decimal; a boolean as `true` or `false`.
pub proof fn value_text_forms(key: Seq<char>, value: Scalar)
    ensures
        entry_text(key, value) == key + "="@ + match value {
            Scalar::Str(s) => s@,
            Scalar::Int(n) => decimal(n as int),
            Scalar::Bool(b) => if b {
                "true"@
            } else {
                "false"@
            },
        },
{
}

/// Where `key` stands among the entries, if anywhere.
pub open spec fn position_of(entries: Seq<(Seq<char>, Scalar)>, key: Seq<char>) -> Option<int> {
    if exists|i: int| 0 <= i < entries.len() && #[trigger] entries[i].0 == key {
        Some(choose|i: int| 0 <= i < entries.len() && #[trigger] entries[i].0 == key)
    } else {
        None
    }
}

/// With distinct keys, the one entry that holds `key` is where it stands.
proof fn lemma_position_unique(entries: Seq<(Seq<char>, Scalar)>, key: Seq<char>, i: int)
    requires
        keys_distinct(entries),
        0 <= i < entries.len(),
        entries[i].0 == key,
    ensures
        position_of(entries, key) == Some(i),
{
    let j = choose|j: int| 0 <= j < entries.len() && #[trigger] entries[j].0 == key;
    if j < i {
        assert(entries[j].0 != entries[i].0);
    } else if i < j {
        assert(entries[i].0 != entries[j].0);
    }
}

/// A key that no entry holds has no position.
proof fn lemma_no_position(entries: Seq<(Seq<char>, Scalar)>, key: Seq<char>)
    requires
        forall|i: int| 0 <= i < entries.len() ==> #[trigger] entries[i].0 != key,
    ensures
        position_of(entries, key) == None::<int>,
{
}

/// Text of one decimal digit.
fn digit_str(d: u64) -> (r: &'static str)
    requires
        d < 10,
    ensures
        r@ == seq![digit_char(d as nat)],
{
    if d == 0 {
        proof { reveal_strlit("0"); }
        "0"
    } else if d == 1 {
        proof { reveal_strlit("1"); }
        "1"
    } else if d == 2 {
        proof { reveal_strlit("2"); }
        "2"
    } else if d == 3 {
        proof { reveal_strlit("3"); }
        "3"
    } else if d == 4 {
        proof { reveal_strlit("4"); }
        "4"
    } else if d == 5 {
        proof { reveal_strlit("5"); }
        "5"
    } else if d == 6 {
        proof { reveal_strlit("6"); }
        "6"
    } else if d == 7 {
        proof { reveal_strlit("7"); }
        "7"
    } else if d == 8 {
        proof { reveal_strlit("8"); }
        "8"
    } else {
        proof { reveal_strlit("9"); }
        "9"
    }
}

/// Decimal digits of `m`.
fn digits_text(m: u64) -> (r: String)
    ensures
        r@ == digits(m as nat),
    decreases m,
{
    if m < 10 {
        String::from_str(digit_str(m))
    } else {
        let mut s = digits_text(m / 10);
        s.append(digit_str(m % 10));
        s
    }
}

/// Canonical decimal text of `n`.
pub fn decimal_text(n: i64) -> (r: String)
    ensures
        r@ == decimal(n as int),
{
    if n < 0 {
        let m: u64 = (-(n as i128)) as u64;
        let mut s = String::from_str("-");
        proof { reveal_strlit("-"); }
        let d = digits_text(m);
        s.append(d.as_str());
        s
    } else {
        digits_text(n as u64)
    }
}

} // verus!
