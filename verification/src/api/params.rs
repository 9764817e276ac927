//! Parameter values in their wire form, and the lists of parameters that a
//! request carries in its query string or in its body.

use std::borrow::Cow;
use vstd::prelude::*;
use vstd::string::StringExecFns;
use vstd::utf8::encode_utf8;

use crate::address::{append_pairs, length_of, pairs_fit, pairs_room, url_length, url_pairs, url_place, Pair, URL_LIMIT};
use crate::api::error::BodyError;
use crate::json::{encode_list, encoded_list};

verus! {

/// The character for a decimal digit.
pub open spec fn digit(d: nat) -> char {
    if d == 0 {
        '0'
    } else if d == 1 {
        '1'
    } else if d == 2 {
        '2'
    } else if d == 3 {
        '3'
    } else if d == 4 {
        '4'
    } else if d == 5 {
        '5'
    } else if d == 6 {
        '6'
    } else if d == 7 {
        '7'
    } else if d == 8 {
        '8'
    } else {
        '9'
    }
}

/// The decimal numeral of `n`: no sign, no leading zero, no blanks.
pub open spec fn decimal(n: nat) -> Seq<char>
    decreases n,
{
    if n < 10 {
        seq![digit(n)]
    } else {
        decimal(n / 10).push(digit(n % 10))
    }
}

/// The wire form of a truth value.
pub open spec fn truth(b: bool) -> Seq<char> {
    if b {
        "true"@
    } else {
        "false"@
    }
}

/// The truth value that a wire form stands for.
pub open spec fn read_truth(text: Seq<char>) -> bool {
    text == "true"@
}

/// The number that a decimal digit stands for.
pub open spec fn digit_value(c: char) -> nat {
    if c == '1' {
        1
    } else if c == '2' {
        2
    } else if c == '3' {
        3
    } else if c == '4' {
        4
    } else if c == '5' {
        5
    } else if c == '6' {
        6
    } else if c == '7' {
        7
    } else if c == '8' {
        8
    } else if c == '9' {
        9
    } else {
        0
    }
}

/// The number that a decimal numeral stands for.
pub open spec fn numeral_value(text: Seq<char>) -> nat
    decreases text.len(),
{
    if text.len() == 0 {
        0
    } else {
        numeral_value(text.drop_last()) * 10 + digit_value(text.last())
    }
}

/// The wire form of a truth value is exactly `true` or `false`, it can be
/// read back, and the value read back has the same wire form.
pub proof fn truth_reads_back(b: bool)
    ensures
        truth(b) == (if b {
            seq!['t', 'r', 'u', 'e']
        } else {
            seq!['f', 'a', 'l', 's', 'e']
        }),
        read_truth(truth(b)) == b,
        truth(read_truth(truth(b))) == truth(b),
{
    reveal_strlit("true");
    reveal_strlit("false");
}

/// The decimal numeral of a number can be read back, and the number read
/// back has the same numeral.
pub proof fn decimal_reads_back(n: nat)
    ensures
        numeral_value(decimal(n)) == n,
        decimal(numeral_value(decimal(n))) == decimal(n),
    decreases n,
{
    if n < 10 {
        assert(numeral_value(decimal(n).drop_last()) == 0);
    } else {
        decimal_reads_back(n / 10);
        assert(decimal(n).drop_last() =~= decimal(n / 10));
    }
}

/// The text that a borrowed or owned string holds.
pub fn text<'s>(value: &'s Cow<'_, str>) -> (slice: &'s str)
    ensures
        slice@ == value@,
{
    match value {
        Cow::Borrowed(borrowed) => borrowed,
        Cow::Owned(owned) => owned.as_str(),
    }
}

/// A copy of a borrowed or owned string, with the same text.
pub fn copy<'a>(value: &Cow<'a, str>) -> (same: Cow<'a, str>)
    ensures
        same@ == value@,
{
    match value {
        Cow::Borrowed(borrowed) => Cow::Borrowed(*borrowed),
        Cow::Owned(owned) => Cow::Owned(owned.clone()),
    }
}

/// The one-character text of a decimal digit.
fn digit_text(d: u64) -> (s: &'static str)
    requires
        d < 10,
    ensures
        s@ == seq![digit(d as nat)],
{
    proof {
        reveal_strlit("0");
        reveal_strlit("1");
        reveal_strlit("2");
        reveal_strlit("3");
        reveal_strlit("4");
        reveal_strlit("5");
        reveal_strlit("6");
        reveal_strlit("7");
        reveal_strlit("8");
        reveal_strlit("9");
    }
    let s = if d == 0 {
        "0"
    } else if d == 1 {
        "1"
    } else if d == 2 {
        "2"
    } else if d == 3 {
        "3"
    } else if d == 4 {
        "4"
    } else if d == 5 {
        "5"
    } else if d == 6 {
        "6"
    } else if d == 7 {
        "7"
    } else if d == 8 {
        "8"
    } else {
        "9"
    };
    s
}

/// Writes `n` as a decimal numeral.
pub fn decimal_text(n: u64) -> (s: String)
    ensures
        s@ == decimal(n as nat),
    decreases n,
{
    if n < 10 {
        String::from_str(digit_text(n))
    } else {
        let mut s = decimal_text(n / 10);
        s.append(digit_text(n % 10));
        s
    }
}

/// A trait representing a parameter value.
pub trait ParamValue<'a> {
    /// The parameter value as a string.
    fn as_value(&self) -> Cow<'a, str>;
}

impl ParamValue<'static> for bool {
    fn as_value(&self) -> (value: Cow<'static, str>)
        ensures
            value@ == truth(*self),
    {
        if *self {
            Cow::Borrowed("true")
        } else {
            Cow::Borrowed("false")
        }
    }
}

impl<'a> ParamValue<'a> for &'a str {
    fn as_value(&self) -> (value: Cow<'a, str>)
        ensures
            value@ == self@,
    {
        Cow::Borrowed(*self)
    }
}

impl ParamValue<'static> for String {
    fn as_value(&self) -> (value: Cow<'static, str>)
        ensures
            value@ == self@,
    {
        Cow::Owned(self.clone())
    }
}

impl<'a> ParamValue<'a> for &'a String {
    fn as_value(&self) -> (value: Cow<'a, str>)
        ensures
            value@ == self@,
    {
        Cow::Borrowed(self.as_str())
    }
}

impl<'a> ParamValue<'a> for Cow<'a, str> {
    fn as_value(&self) -> (value: Cow<'a, str>)
        ensures
            value@ == self@,
    {
        copy(self)
    }
}

impl<'a, 'b: 'a> ParamValue<'a> for &'b Cow<'a, str> {
    fn as_value(&self) -> (value: Cow<'a, str>)
        ensures
            value@ == self@,
    {
        copy(*self)
    }
}

impl ParamValue<'static> for u64 {
    fn as_value(&self) -> (value: Cow<'static, str>)
        ensures
            value@ == decimal(*self as nat),
    {
        Cow::Owned(decimal_text(*self))
    }
}

/// Whether `text` is a wire form that `value` gives for itself.
pub open spec fn wire<'b, V: ParamValue<'b>>(value: V, text: Seq<char>) -> bool {
    exists|written: Cow<'b, str>| #[trigger]
        call_ensures(V::as_value, (&value,), written) && written@ == text
}

/// Whether `pairs` holds, name for name and in the same order, a wire form
/// of each value of `given`.
pub open spec fn wires<'a, 'b, V: ParamValue<'b>>(given: Seq<(Cow<'a, str>, V)>, pairs: Seq<Pair>) -> bool {
    &&& pairs.len() == given.len()
    &&& forall|i: int|
        0 <= i < given.len() ==> (#[trigger] pairs[i]).0 == given[i].0@ && wire(
            given[i].1,
            pairs[i].1,
        )
}

/// Puts a name and the wire form of a value at the end of a list.
fn push_pair<'a, 'b, V>(list: &mut Vec<(Cow<'a, str>, Cow<'a, str>)>, key: Cow<'a, str>, value: V) where
    V: ParamValue<'b>,
    'b: 'a,

    ensures
        exists|text: Seq<char>| #[trigger]
            wire(value, text) && final(list).deep_view() == old(list).deep_view().push(
                (key@, text),
            ),
{
    let written = value.as_value();
    let ghost text = written@;
    list.push((key, written));
    assert(wire(value, text));
}

/// Puts names and the wire forms of their values at the end of a list, in
/// their order.
fn extend_list<'a, 'b, V>(list: &mut Vec<(Cow<'a, str>, Cow<'a, str>)>, pairs: Vec<(Cow<'a, str>, V)>) where
    V: ParamValue<'b>,
    'b: 'a,

    ensures
        exists|tail: Seq<Pair>| #[trigger]
            wires(pairs@, tail) && final(list).deep_view() == old(list).deep_view() + tail,
{
    let ghost before = list.deep_view();
    let ghost given = pairs@;
    let ghost mut tail: Seq<Pair> = Seq::empty();
    for pair in it: pairs.into_iter()
        invariant
            it.seq() == given,
            wires(given.take(it.index() as int), tail),
            list.deep_view() == before + tail,
    {
        let ghost sofar = list.deep_view();
        let (key, value) = pair;
        push_pair(list, key, value);
        proof {
            let text = choose|text: Seq<char>| #[trigger]
                wire(value, text) && list.deep_view() == sofar.push((key@, text));
            tail = tail.push((key@, text));
        }
    }
    assert(given.take(given.len() as int) =~= given);
}

/// A structure for query parameters: names with their values, in the order
/// in which they were pushed.
#[derive(Debug, Clone)]
pub struct QueryParams<'a> {
    params: Vec<(Cow<'a, str>, Cow<'a, str>)>,
}

impl<'a> View for QueryParams<'a> {
    type V = Seq<Pair>;

    closed spec fn view(&self) -> Seq<Pair> {
        self.params.deep_view()
    }
}

impl<'a> Default for QueryParams<'a> {
    fn default() -> (params: Self)
        ensures
            params@ == Seq::<Pair>::empty(),
    {
        let params = QueryParams { params: Vec::new() };
        params
    }
}

impl<'a> QueryParams<'a> {
    /// Push a single parameter.
    pub fn push<'b, V>(&mut self, key: Cow<'a, str>, value: V) -> (same: &mut Self) where
        V: ParamValue<'b>,
        'b: 'a,

        ensures
            exists|text: Seq<char>| #[trigger]
                wire(value, text) && same@ == old(self)@.push((key@, text)),
            *final(self) == *final(same),
    {
        push_pair(&mut self.params, key, value);
        self
    }

    /// Push a single parameter, if there is a value for it.
    pub fn push_opt<'b, V>(&mut self, key: Cow<'a, str>, value: Option<V>) -> (same: &mut Self) where
        V: ParamValue<'b>,
        'b: 'a,

        ensures
            match value {
                Some(v) => exists|text: Seq<char>| #[trigger]
                    wire(v, text) && same@ == old(self)@.push((key@, text)),
                None => same@ == old(self)@,
            },
            *final(self) == *final(same),
    {
        if let Some(value) = value {
            push_pair(&mut self.params, key, value);
        }
        self
    }

    /// Push a set of parameters, in their order.
    pub fn extend<'b, V>(&mut self, pairs: Vec<(Cow<'a, str>, V)>) -> (same: &mut Self) where
        V: ParamValue<'b>,
        'b: 'a,

        ensures
            exists|tail: Seq<Pair>| #[trigger] wires(pairs@, tail) && same@ == old(self)@ + tail,
            *final(self) == *final(same),
    {
        extend_list(&mut self.params, pairs);
        self
    }

    /// Whether no parameter was pushed.
    pub fn is_empty(&self) -> (empty: bool)
        ensures
            empty == (self@.len() == 0),
    {
        self.params.len() == 0
    }

    /// Add the parameters to a URL: they come behind the pairs that its query
    /// string already holds, in the order in which they were pushed, and
    /// nothing else of the URL changes. The URL must leave room for them.
    pub fn add_to_url(&self, url: &mut url::Url)
        requires
            pairs_fit(url_length(*old(url)), self@),
        ensures
            url_pairs(*final(url)) == url_pairs(*old(url)) + self@,
            url_place(*final(url)) == url_place(*old(url)),
    {
        append_pairs(url, &self.params);
    }

    /// Add the parameters to a URL if it has room for them, and say whether
    /// it had. Without room the URL stays as it is.
    pub fn try_add_to_url(&self, url: &mut url::Url) -> (added: bool)
        ensures
            added == pairs_fit(url_length(*old(url)), self@),
            added ==> url_pairs(*final(url)) == url_pairs(*old(url)) + self@,
            added ==> url_place(*final(url)) == url_place(*old(url)),
            !added ==> *final(url) == *old(url),
    {
        let length = length_of(url);
        match room(&self.params) {
            Some(needed) => {
                if length as u64 <= URL_LIMIT && needed < URL_LIMIT - length as u64 {
                    self.add_to_url(url);
                    true
                } else {
                    false
                }
            },
            None => false,
        }
    }
}

/// A structure for body parameters: names with their values, in the order
/// in which they were pushed.
#[derive(Debug, Clone)]
pub struct BodyParams<'a> {
    params: Vec<(Cow<'a, str>, Cow<'a, str>)>,
}

impl<'a> View for BodyParams<'a> {
    type V = Seq<Pair>;

    closed spec fn view(&self) -> Seq<Pair> {
        self.params.deep_view()
    }
}

impl<'a> Default for BodyParams<'a> {
    fn default() -> (params: Self)
        ensures
            params@ == Seq::<Pair>::empty(),
    {
        let params = BodyParams { params: Vec::new() };
        params
    }
}

/// Whether `body` is the content type and the text of the request body that
/// the pairs make: JSON, and the text that the encoder gives for them.
pub open spec fn is_body_of(pairs: Seq<Pair>, body: Result<(&'static str, Vec<u8>), BodyError>) -> bool {
    match encoded_list(pairs) {
        Some(bytes) => body matches Ok((content_type, data)) && content_type@
            == "application/json"@ && data@ == bytes,
        None => body matches Err(BodyError::JsonEncodee { .. }),
    }
}

impl<'a> BodyParams<'a> {
    /// Push a single parameter.
    pub fn push<'b, V>(&mut self, key: Cow<'a, str>, value: V) -> (same: &mut Self) where
        V: ParamValue<'b>,
        'b: 'a,

        ensures
            exists|text: Seq<char>| #[trigger]
                wire(value, text) && same@ == old(self)@.push((key@, text)),
            *final(self) == *final(same),
    {
        push_pair(&mut self.params, key, value);
        self
    }

    /// Push a single parameter, if there is a value for it.
    pub fn push_opt<'b, V>(&mut self, key: Cow<'a, str>, value: Option<V>) -> (same: &mut Self) where
        V: ParamValue<'b>,
        'b: 'a,

        ensures
            match value {
                Some(v) => exists|text: Seq<char>| #[trigger]
                    wire(v, text) && same@ == old(self)@.push((key@, text)),
                None => same@ == old(self)@,
            },
            *final(self) == *final(same),
    {
        if let Some(value) = value {
            push_pair(&mut self.params, key, value);
        }
        self
    }

    /// Push a set of parameters, in their order.
    pub fn extend<'b, V>(&mut self, pairs: Vec<(Cow<'a, str>, V)>) -> (same: &mut Self) where
        V: ParamValue<'b>,
        'b: 'a,

        ensures
            exists|tail: Seq<Pair>| #[trigger] wires(pairs@, tail) && same@ == old(self)@ + tail,
            *final(self) == *final(same),
    {
        extend_list(&mut self.params, pairs);
        self
    }

    /// Encode the parameters into a request body: the content type and the
    /// JSON text of the list of pairs.
    pub fn into_body(self) -> (body: Result<(&'static str, Vec<u8>), BodyError>)
        ensures
            is_body_of(self@, body),
    {
        framed_body(encode_list(&self.params))
    }
}

/// Names the content type beside an encoded body, or wraps the encoder's
/// error.
pub fn framed_body(encoded: Result<Vec<u8>, serde_json::Error>) -> (body: Result<
    (&'static str, Vec<u8>),
    BodyError,
>)
    ensures
        match encoded {
            Ok(bytes) => body matches Ok((content_type, data)) && content_type@
                == "application/json"@ && data == bytes,
            Err(error) => body matches Err(BodyError::JsonEncodee { source }) && source == error,
        },
{
    match encoded {
        Ok(bytes) => Ok(("application/json", bytes)),
        Err(source) => Err(BodyError::JsonEncodee { source }),
    }
}

/// The number of bytes in the text of a borrowed or owned string.
fn byte_length(value: &Cow<'_, str>) -> (length: usize)
    ensures
        length == encode_utf8(value@).len(),
{
    text(value).as_bytes().len()
}

/// Adding a pair never lowers the room that a list of pairs needs.
proof fn room_grows(pairs: Seq<Pair>, n: int)
    requires
        0 <= n <= pairs.len(),
    ensures
        pairs_room(pairs.take(n)) <= pairs_room(pairs),
    decreases pairs.len(),
{
    if n < pairs.len() {
        room_grows(pairs.drop_last(), n);
        assert(pairs.drop_last().take(n) =~= pairs.take(n));
    } else {
        assert(pairs.take(n) =~= pairs);
    }
}

/// The room that the pairs need in a query string, unless it is beyond the
/// limit of a URL.
fn room(pairs: &Vec<(Cow<'_, str>, Cow<'_, str>)>) -> (needed: Option<u64>)
    ensures
        match needed {
            Some(n) => n == pairs_room(pairs.deep_view()) && n <= URL_LIMIT,
            None => pairs_room(pairs.deep_view()) > URL_LIMIT,
        },
{
    let ghost all = pairs.deep_view();
    let mut total: u64 = 0;
    let mut i: usize = 0;
    while i < pairs.len()
        invariant
            i <= pairs.len(),
            all == pairs.deep_view(),
            total == pairs_room(all.take(i as int)),
            total <= URL_LIMIT,
        decreases pairs.len() - i,
    {
        let name = byte_length(&pairs[i].0);
        let value = byte_length(&pairs[i].1);
        proof {
            assert(all.take(i + 1).drop_last() =~= all.take(i as int));
            room_grows(all, i + 1);
        }
        if name as u64 > URL_LIMIT || value as u64 > URL_LIMIT {
            return None;
        }
        let wide: u64 = 3 * (name as u64) + 3 * (value as u64) + 2;
        if wide > URL_LIMIT - total {
            return None;
        }
        total = total + wide;
        i = i + 1;
    }
    assert(all.take(i as int) =~= all);
    Some(total)
}

} // verus!
