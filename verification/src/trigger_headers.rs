//! The headers of a submission: its trigger, its method, and the headers
//! that go on to the endpoint.

use http::{HeaderMap, HeaderName, HeaderValue};
use vstd::prelude::*;
use vstd::set_lib::lemma_len_subset;
use vstd::utf8::encode_utf8;

use crate::utils::chars_of;

verus! {

/// `http::HeaderMap`, the multimap of header names and values.
#[verifier::external_type_specification]
#[verifier::external_body]
#[verifier::reject_recursive_types(T)]
pub struct ExHeaderMap<T>(HeaderMap<T>);

/// `http::HeaderValue`, the bytes of one header value.
#[verifier::external_type_specification]
#[verifier::external_body]
pub struct ExHeaderValue(HeaderValue);

/// One header as it is read: its name, and its value where that is text.
pub type HeaderEntry = (Seq<char>, Option<Seq<char>>);

/// One header as it is handed out: its name, and its value where that is
/// text.
pub type HeaderLine = (String, Option<String>);

/// The headers of a map in the order in which `HeaderMap::iter` walks
/// them, once for each value. A name is what `HeaderName::as_str` gives; a
/// value is what `HeaderValue::to_str` gives, and nothing where that
/// refuses.
pub uninterp spec fn header_entries(headers: HeaderMap) -> Seq<HeaderEntry>;

/// What a map answers when asked for a name: each name it holds, with the
/// bytes of the first value under it.
pub uninterp spec fn header_fields(headers: HeaderMap) -> Map<Seq<char>, Seq<u8>>;

/// Whether a character can stand in a header name: a letter, a digit, or
/// one of the signs that HTTP takes in a token.
pub open spec fn is_name_char(c: char) -> bool {
    c == '!' || ('#' <= c <= '\'') || c == '*' || c == '+' || c == '-' || c == '.' || ('0' <= c
        <= '9') || ('A' <= c <= 'Z') || ('^' <= c <= 'z') || c == '|' || c == '~'
}

/// A character of a header name as a `HeaderName` holds it: a capital
/// letter as its small letter, every other character as it is.
pub open spec fn lower_case(c: char) -> char {
    if 'A' <= c <= 'Z' {
        ((c as u8 + 32) as u8) as char
    } else {
        c
    }
}

/// The longest header name, in characters.
pub const MAX_NAME_LEN: usize = 65_535;

/// The header name that `HeaderName::from_str` makes of a text: the text
/// in lower case, where it holds between one and `MAX_NAME_LEN`
/// characters that can all stand in a header name; nothing for any other
/// text.
pub open spec fn header_name_of(text: Seq<char>) -> Option<Seq<char>> {
    if 1 <= text.len() <= MAX_NAME_LEN && (forall|i: int|
        0 <= i < text.len() ==> is_name_char(#[trigger] text[i])) {
        Some(text.map_values(|c: char| lower_case(c)))
    } else {
        None
    }
}

/// Whether `HeaderValue::from_str` takes a text as a header value. It
/// refuses the control characters other than the tab, and takes all else.
pub open spec fn header_value_accepts(text: Seq<char>) -> bool {
    forall|i: int|
        0 <= i < text.len() ==> {
            let c = #[trigger] text[i];
            (c >= ' ' && c != '\u{7f}') || c == '\t'
        }
}

/// Whether a text is one that `HeaderValue::to_str` hands out: visible
/// characters of ASCII, spaces and tabs, and nothing else.
pub open spec fn is_visible_text(text: Seq<char>) -> bool {
    forall|i: int| 0 <= i < text.len() ==> (' ' <= #[trigger] text[i] <= '~') || text[i] == '\t'
}

/// Whether every value among the entries that is text is visible text.
pub open spec fn have_visible_values(entries: Seq<HeaderEntry>) -> bool {
    forall|i: int|
        0 <= i < entries.len() ==> ((#[trigger] entries[i]).1 matches Some(value)
            ==> is_visible_text(value))
}

/// Whether a name holds no capital letter.
pub open spec fn has_no_capital(name: Seq<char>) -> bool {
    forall|i: int| 0 <= i < name.len() ==> !('A' <= #[trigger] name[i] <= 'Z')
}

/// The names that a `HeaderMap` is sure to take: it gives up on an
/// insertion only where it holds this many names or more, when it cannot
/// double its table of 32768 slots any more.
pub const SURE_CAPACITY: usize = 6554;

/// The answers of a map that holds nothing.
pub open spec fn no_fields() -> Map<Seq<char>, Seq<u8>> {
    Map::empty()
}

/// What a map answers after it took a header of `name` and `value`: for
/// the name, in lower case, it answers with the bytes of the value, in
/// place of what it held under that name, and for every other name as
/// before. A header that is no header leaves the map as it was.
pub open spec fn fields_after(
    fields: Map<Seq<char>, Seq<u8>>,
    name: Seq<char>,
    value: Seq<char>,
) -> Map<Seq<char>, Seq<u8>> {
    match header_name_of(name) {
        Some(header_name) => if header_value_accepts(value) {
            fields.insert(header_name, encode_utf8(value))
        } else {
            fields
        },
        None => fields,
    }
}

/// What came of offering a header to a map.
#[derive(Clone, Copy, Debug, PartialEq, Eq, Structural)]
pub enum Offer {
    /// The map took the header.
    Taken,
    /// The name or the value is none that a header can have.
    Refused,
    /// The map is full and gave up.
    Full,
}

/// Calls `HeaderMap::new`. Trusted: the new map holds nothing.
#[verifier::external_body]
fn empty_headers() -> (headers: HeaderMap)
    ensures
        header_fields(headers) == no_fields(),
{
    HeaderMap::new()
}

/// Walks a map with `HeaderMap::iter` and hands out each header as text.
/// Trusted: the result is what `header_entries` names, and every value
/// in it that `HeaderValue::to_str` handed out is visible text. Nothing
/// is claimed of the names.
#[verifier::external_body]
fn entries_of(headers: &HeaderMap) -> (entries: Vec<HeaderLine>)
    ensures
        header_entries(*headers) == entries.deep_view(),
        have_visible_values(entries.deep_view()),
{
    headers
        .iter()
        .map(|(name, value)| (name.as_str().to_string(), value.to_str().ok().map(String::from)))
        .collect()
}

/// Makes a header of `name` and `value` with `HeaderName::from_str`
/// (which `str::parse` calls) and `HeaderValue::from_str`, and offers it
/// to the map with `HeaderMap::try_insert`. Trusted: the header is
/// refused if and only if one of the two texts is; a header that the map
/// takes changes its answers as `fields_after` says, and no other offer
/// changes them; and the map gives up only where it holds
/// `SURE_CAPACITY` names or more.
#[verifier::external_body]
fn insert_field(headers: &mut HeaderMap, name: &str, value: &str) -> (offer: Offer)
    ensures
        (offer == Offer::Refused) == !(header_name_of(name@) is Some && header_value_accepts(
            value@,
        )),
        offer == Offer::Taken ==> header_fields(*final(headers)) == fields_after(
            header_fields(*old(headers)),
            name@,
            value@,
        ),
        offer != Offer::Taken ==> header_fields(*final(headers)) == header_fields(*old(headers)),
        offer == Offer::Full ==> !(header_fields(*old(headers)).dom().finite() && header_fields(
            *old(headers),
        ).dom().len() < SURE_CAPACITY),
{
    match (name.parse::<HeaderName>(), HeaderValue::from_str(value)) {
        (Ok(header_name), Ok(header_value)) => {
            match headers.try_insert(header_name, header_value) {
                Ok(_) => Offer::Taken,
                Err(_) => Offer::Full,
            }
        },
        _ => Offer::Refused,
    }
}

/// The method of the callback.
#[derive(Clone, Copy, Debug, PartialEq, Eq, Structural)]
pub enum Method {
    Get,
    Post,
}

/// What the headers of a submission ask for.
#[derive(Debug)]
pub struct TriggerHeader {
    /// The delay token, where the submission carries one.
    pub trigger_delay: Option<String>,
    /// The cron expression, where the submission carries one.
    pub trigger_cron: Option<String>,
    pub trigger_method: Method,
    /// The headers to send on, under the names they are to have there.
    pub forwarded_headers: HeaderMap,
}

/// The characters that the name of a forwarded header begins with.
pub open spec fn forward_prefix() -> Seq<char> {
    "trigger-forward-"@
}

/// Whether `text` begins with `prefix`.
pub open spec fn has_prefix(text: Seq<char>, prefix: Seq<char>) -> bool {
    prefix.len() <= text.len() && text.take(prefix.len() as int) == prefix
}

/// `name` without the forward prefix in front of it. The prefix is taken
/// off once: what follows it is the name, whatever it begins with.
pub open spec fn strip_forward_prefix(name: Seq<char>) -> Seq<char> {
    if has_prefix(name, forward_prefix()) {
        name.skip(forward_prefix().len() as int)
    } else {
        name
    }
}

/// The value of the last header named `name` whose value is text.
pub open spec fn last_value(entries: Seq<HeaderEntry>, name: Seq<char>) -> Option<Seq<char>>
    decreases entries.len(),
{
    if entries.len() == 0 {
        None
    } else if entries.last().0 == name && entries.last().1 is Some {
        entries.last().1
    } else {
        last_value(entries.drop_last(), name)
    }
}

/// The method that a `trigger-method` header asks for: `GET` where it
/// says so, `POST` for any other value and where there is no such header.
pub open spec fn method_of(value: Option<Seq<char>>) -> Method {
    if value == Some("GET"@) {
        Method::Get
    } else {
        Method::Post
    }
}

/// The header that an entry forwards, if it forwards one: its name begins
/// with the forward prefix, what is left of the name without the prefix
/// is a header name, and its value is text that a header value can hold.
/// The header goes out under the name without the prefix.
pub open spec fn forward_of(entry: HeaderEntry) -> Option<(Seq<char>, Seq<u8>)> {
    match entry.1 {
        Some(value) => {
            if has_prefix(entry.0, forward_prefix()) && header_value_accepts(value) {
                match header_name_of(strip_forward_prefix(entry.0)) {
                    Some(name) => Some((name, encode_utf8(value))),
                    None => None,
                }
            } else {
                None
            }
        },
        None => None,
    }
}

/// The forwarded headers after one more entry was looked at: the header
/// that the entry forwards goes in, in place of an earlier one of the same
/// name.
pub open spec fn forward_step(fields: Map<Seq<char>, Seq<u8>>, entry: HeaderEntry) -> Map<
    Seq<char>,
    Seq<u8>,
> {
    match forward_of(entry) {
        Some((name, value)) => fields.insert(name, value),
        None => fields,
    }
}

/// The forwarded headers of a submission. Entries are taken in order, and
/// a later header replaces an earlier one of the same name.
pub open spec fn forwarded(entries: Seq<HeaderEntry>) -> Map<Seq<char>, Seq<u8>>
    decreases entries.len(),
{
    if entries.len() == 0 {
        Map::empty()
    } else {
        forward_step(forwarded(entries.drop_last()), entries.last())
    }
}

/// What `last_value` finds is the value of a header of that name, and no
/// header of that name with a text for its value stands behind it. Where
/// it finds nothing, no header of that name has a text for its value.
pub proof fn last_value_is_the_last(entries: Seq<HeaderEntry>, name: Seq<char>)
    ensures
        match last_value(entries, name) {
            Some(value) => exists|i: int|
                0 <= i < entries.len() && #[trigger] entries[i] == (name, Some(value)) && forall|
                    j: int,
                |
                    i < j < entries.len() ==> !(#[trigger] entries[j].0 == name
                        && entries[j].1 is Some),
            None => forall|j: int|
                0 <= j < entries.len() ==> !(#[trigger] entries[j].0 == name
                    && entries[j].1 is Some),
        },
    decreases entries.len(),
{
    if entries.len() > 0 && !(entries.last().0 == name && entries.last().1 is Some) {
        let front = entries.drop_last();
        last_value_is_the_last(front, name);
        assert forall|j: int| 0 <= j < front.len() implies front[j] == entries[j] by {}
    }
}

/// Whether `fields` are the forwarded headers of a submission with the
/// entries `entries`: exactly those that `forwarded` gives, for as long as
/// a `HeaderMap` is sure to take them. Beyond that the map may have given
/// up on a header, which is then left out; no other header comes in.
pub open spec fn forwarding_holds(fields: Map<Seq<char>, Seq<u8>>, entries: Seq<HeaderEntry>) -> bool {
    &&& forwarded(entries).dom().len() < SURE_CAPACITY ==> fields == forwarded(entries)
    &&& fields.dom().subset_of(forwarded(entries).dom())
}

/// The forwarded headers are finitely many: no more than there are
/// entries.
pub proof fn forwarded_is_finite(entries: Seq<HeaderEntry>)
    ensures
        forwarded(entries).dom().finite(),
        forwarded(entries).dom().len() <= entries.len(),
    decreases entries.len(),
{
    if entries.len() > 0 {
        forwarded_is_finite(entries.drop_last());
    }
}

/// The forwarded headers only grow as more entries are looked at: a name
/// that is forwarded after the first `n` entries is forwarded in the end.
pub proof fn forwarded_grows(entries: Seq<HeaderEntry>, n: int)
    requires
        0 <= n <= entries.len(),
    ensures
        forwarded(entries.take(n)).dom().subset_of(forwarded(entries).dom()),
        forwarded(entries.take(n)).dom().len() <= forwarded(entries).dom().len(),
    decreases entries.len() - n,
{
    forwarded_is_finite(entries);
    if n == entries.len() {
        assert(entries.take(n) == entries);
    } else {
        forwarded_grows(entries, n + 1);
        assert(entries.take(n + 1).drop_last() == entries.take(n));
        forwarded_is_finite(entries.take(n + 1));
        lemma_len_subset(forwarded(entries.take(n)).dom(), forwarded(entries.take(n + 1)).dom());
    }
}

/// A header is forwarded only under a name that some entry with the
/// forward prefix gives it, and only with the value of that entry.
pub proof fn forwarded_comes_from_an_entry(entries: Seq<HeaderEntry>, name: Seq<char>)
    requires
        forwarded(entries).dom().contains(name),
    ensures
        exists|i: int|
            0 <= i < entries.len() && #[trigger] forward_of(entries[i]) == Some(
                (name, forwarded(entries)[name]),
            ),
    decreases entries.len(),
{
    if entries.len() > 0 {
        let front = entries.drop_last();
        let replaced = match forward_of(entries.last()) {
            Some(header) => header.0 == name,
            None => false,
        };
        if !replaced {
            forwarded_comes_from_an_entry(front, name);
            assert forall|j: int| 0 <= j < front.len() implies front[j] == entries[j] by {}
        }
    }
}

/// Whether an entry forwards a header under the name `name`.
pub open spec fn forwards_under(entry: HeaderEntry, name: Seq<char>) -> bool {
    forward_of(entry) matches Some(header) && header.0 == name
}

/// The header that an entry forwards is among the forwarded headers, with
/// the value of that entry, unless a later entry forwards one of the same
/// name.
pub proof fn forwarded_holds_the_last(
    entries: Seq<HeaderEntry>,
    i: int,
    name: Seq<char>,
    value: Seq<u8>,
)
    requires
        0 <= i < entries.len(),
        forward_of(entries[i]) == Some((name, value)),
        forall|j: int| i < j < entries.len() ==> !forwards_under(#[trigger] entries[j], name),
    ensures
        forwarded(entries).dom().contains(name),
        forwarded(entries)[name] == value,
    decreases entries.len(),
{
    let front = entries.drop_last();
    if i < entries.len() - 1 {
        assert(front[i] == entries[i]);
        assert forall|j: int| i < j < front.len() implies !forwards_under(
            #[trigger] front[j],
            name,
        ) by {
            assert(front[j] == entries[j]);
        }
        forwarded_holds_the_last(front, i, name, value);
        assert(!forwards_under(entries[entries.len() - 1], name));
    }
}

/// A header named with the forward prefix and a header name behind it
/// goes out under that name and with its value as it came: the prefix is
/// taken off once, and nothing else is changed.
pub proof fn prefixed_header_goes_out_bare(name: Seq<char>, value: Seq<char>)
    requires
        header_name_of(name) == Some(name),
        header_value_accepts(value),
    ensures
        forward_of((forward_prefix() + name, Some(value))) == Some((name, encode_utf8(value))),
{
    let full = forward_prefix() + name;
    assert(full.take(forward_prefix().len() as int) == forward_prefix());
    assert(full.skip(forward_prefix().len() as int) == name);
}

/// Whether an entry is a header to forward: it has a text for its value,
/// its name begins with the forward prefix, and what follows the prefix is
/// a header name.
pub open spec fn is_forward_entry(entry: HeaderEntry) -> bool {
    &&& entry.1 is Some
    &&& has_prefix(entry.0, forward_prefix())
    &&& header_name_of(strip_forward_prefix(entry.0)) is Some
}

/// A header name without a capital letter is held as it stands.
pub proof fn lower_case_name_stays(name: Seq<char>)
    requires
        has_no_capital(name),
        header_name_of(name) is Some,
    ensures
        header_name_of(name) == Some(name),
{
    assert(name.map_values(|c: char| lower_case(c)) =~= name);
}

/// What an entry forwards whose name holds no capital letter and whose
/// value, where it is text, is visible text: a header to forward goes out
/// under what follows the prefix, with its value as it came; every other
/// entry forwards nothing. So does an entry with a sign behind the prefix
/// that no header name takes, such as a double quote.
pub proof fn entry_forwards(entry: HeaderEntry)
    requires
        has_no_capital(entry.0),
        entry.1 matches Some(value) ==> is_visible_text(value),
    ensures
        is_forward_entry(entry) ==> forward_of(entry) == Some(
            (strip_forward_prefix(entry.0), encode_utf8(entry.1->0)),
        ),
        !is_forward_entry(entry) ==> forward_of(entry) is None,
{
    if is_forward_entry(entry) {
        let rest = strip_forward_prefix(entry.0);
        assert forall|i: int| 0 <= i < rest.len() implies !('A' <= #[trigger] rest[i] <= 'Z') by {
            assert(rest[i] == entry.0[forward_prefix().len() + i]);
        }
        lower_case_name_stays(rest);
    }
}

/// The forwarded headers of a submission in which no name stands twice
/// and no name holds a capital letter: every header to forward is there,
/// under what follows the prefix and with its value as it came, and
/// nothing else is there.
pub proof fn single_headers_go_out_by_name(entries: Seq<HeaderEntry>)
    requires
        have_visible_values(entries),
        forall|i: int| 0 <= i < entries.len() ==> has_no_capital((#[trigger] entries[i]).0),
        forall|i: int, j: int|
            0 <= i < j < entries.len() ==> (#[trigger] entries[i]).0 != (#[trigger] entries[j]).0,
    ensures
        forall|i: int|
            0 <= i < entries.len() && is_forward_entry(#[trigger] entries[i]) ==> {
                let name = strip_forward_prefix(entries[i].0);
                forwarded(entries).dom().contains(name) && forwarded(entries)[name]
                    == encode_utf8(entries[i].1->0)
            },
        forall|name: Seq<char>| #[trigger]
            forwarded(entries).dom().contains(name) ==> exists|i: int|
                0 <= i < entries.len() && is_forward_entry(#[trigger] entries[i])
                    && strip_forward_prefix(entries[i].0) == name,
{
    assert forall|i: int| 0 <= i < entries.len() && is_forward_entry(
        #[trigger] entries[i],
    ) implies {
        let name = strip_forward_prefix(entries[i].0);
        forwarded(entries).dom().contains(name) && forwarded(entries)[name] == encode_utf8(
            entries[i].1->0,
        )
    } by {
        let name = strip_forward_prefix(entries[i].0);
        entry_forwards(entries[i]);
        assert forall|j: int| i < j < entries.len() implies !forwards_under(
            #[trigger] entries[j],
            name,
        ) by {
            entry_forwards(entries[j]);
            if forwards_under(entries[j], name) {
                assert(entries[j].0 =~= forward_prefix() + name);
                assert(entries[i].0 =~= forward_prefix() + name);
            }
        }
        forwarded_holds_the_last(entries, i, name, encode_utf8(entries[i].1->0));
    }
    assert forall|name: Seq<char>| #[trigger]
        forwarded(entries).dom().contains(name) implies exists|i: int|
        0 <= i < entries.len() && is_forward_entry(#[trigger] entries[i]) && strip_forward_prefix(
            entries[i].0,
        ) == name by {
        forwarded_comes_from_an_entry(entries, name);
        let i = choose|i: int|
            0 <= i < entries.len() && #[trigger] forward_of(entries[i]) == Some(
                (name, forwarded(entries)[name]),
            );
        entry_forwards(entries[i]);
    }
}

/// A header with a double quote behind the forward prefix is not
/// forwarded, whatever its value: no header name takes that sign.
pub proof fn quoted_name_stays_behind(entry: HeaderEntry, place: int)
    requires
        has_prefix(entry.0, forward_prefix()),
        forward_prefix().len() <= place < entry.0.len(),
        entry.0[place] == '"',
    ensures
        forward_of(entry) is None,
{
    let rest = strip_forward_prefix(entry.0);
    assert(rest[place - forward_prefix().len()] == '"');
    assert(!is_name_char(rest[place - forward_prefix().len()]));
}

/// A header whose name does not begin with the forward prefix is not
/// forwarded. The three trigger headers are such headers.
pub proof fn other_headers_stay_behind(entry: HeaderEntry)
    requires
        !has_prefix(entry.0, forward_prefix()),
    ensures
        forward_of(entry) is None,
        !has_prefix("trigger-delay"@, forward_prefix()),
        !has_prefix("trigger-cron"@, forward_prefix()),
        !has_prefix("trigger-method"@, forward_prefix()),
{
    reveal_strlit("trigger-forward-");
    reveal_strlit("trigger-delay");
    reveal_strlit("trigger-cron");
    reveal_strlit("trigger-method");
}

/// Whether `text` begins with `prefix`.
fn begins_with(text: &Vec<char>, prefix: &Vec<char>) -> (found: bool)
    ensures
        found == has_prefix(text@, prefix@),
{
    if prefix.len() > text.len() {
        return false;
    }
    let mut k: usize = 0;
    while k < prefix.len()
        invariant
            prefix.len() <= text.len(),
            0 <= k <= prefix.len(),
            forall|j: int| 0 <= j < k ==> text@[j] == prefix@[j],
        decreases prefix.len() - k,
    {
        if text[k] != prefix[k] {
            assert(text@.take(prefix.len() as int)[k as int] != prefix@[k as int]);
            return false;
        }
        k += 1;
    }
    assert(text@.take(prefix.len() as int) =~= prefix@);
    true
}

/// The name under which a header is forwarded: what follows the forward
/// prefix in `name`. Nothing for a name that does not begin with the
/// prefix.
fn forward_name(name: &str) -> (rest: Option<&str>)
    ensures
        match rest {
            Some(rest) => has_prefix(name@, forward_prefix()) && rest@ == strip_forward_prefix(
                name@,
            ),
            None => !has_prefix(name@, forward_prefix()),
        },
{
    let chars = chars_of(name);
    let prefix = chars_of("trigger-forward-");
    if begins_with(&chars, &prefix) {
        let rest = name.substring_char(prefix.len(), chars.len());
        assert(name@.subrange(prefix.len() as int, name@.len() as int) == name@.skip(
            prefix.len() as int,
        ));
        Some(rest)
    } else {
        None
    }
}

/// Looks at one header whose value is text, and forwards it where it is
/// one to forward. A map that is full keeps what it holds, and the header
/// is left out.
fn capture_forward_headers(
    forwarded_headers: &mut HeaderMap,
    forwarded_header_name: &str,
    forwarded_header_value: &str,
)
    ensures
        header_fields(*final(forwarded_headers)) == header_fields(*old(forwarded_headers))
            || header_fields(*final(forwarded_headers)) == forward_step(
            header_fields(*old(forwarded_headers)),
            (forwarded_header_name@, Some(forwarded_header_value@)),
        ),
        header_fields(*old(forwarded_headers)).dom().finite() && header_fields(
            *old(forwarded_headers),
        ).dom().len() < SURE_CAPACITY ==> header_fields(*final(forwarded_headers))
            == forward_step(
            header_fields(*old(forwarded_headers)),
            (forwarded_header_name@, Some(forwarded_header_value@)),
        ),
{
    match forward_name(forwarded_header_name) {
        Some(header_name) => {
            insert_field(forwarded_headers, header_name, forwarded_header_value);
        },
        None => {},
    }
}

impl TriggerHeader {
    /// Reads the headers of a submission.
    ///
    /// `trigger-delay` and `trigger-cron` give the trigger and
    /// `trigger-method` the method; of several headers of one name the
    /// last one counts. A header whose name begins with `trigger-forward-`
    /// is sent on under the rest of its name. A header whose value is not
    /// text is passed over.
    ///
    /// The forwarded headers are exactly those that `forwarded` gives,
    /// for as long as a `HeaderMap` is sure to take them: see
    /// `forwarding_holds`. The last clause says of the headers that came
    /// in what holds of every value that a `HeaderMap` hands out as text.
    pub fn process_headers(headers: HeaderMap) -> (parsed: TriggerHeader)
        ensures
            parsed.trigger_delay.deep_view() == last_value(
                header_entries(headers),
                "trigger-delay"@,
            ),
            parsed.trigger_cron.deep_view() == last_value(header_entries(headers), "trigger-cron"@),
            parsed.trigger_method == method_of(
                last_value(header_entries(headers), "trigger-method"@),
            ),
            forwarding_holds(header_fields(parsed.forwarded_headers), header_entries(headers)),
            have_visible_values(header_entries(headers)),
    {
        let entries = entries_of(&headers);
        let ghost all = header_entries(headers);
        let delay_name: String = "trigger-delay".to_owned();
        let cron_name: String = "trigger-cron".to_owned();
        let method_name: String = "trigger-method".to_owned();
        let get: String = "GET".to_owned();
        let mut trigger_delay: Option<String> = None;
        let mut trigger_cron: Option<String> = None;
        let mut method_value: Option<String> = None;
        let mut forwarded_headers = empty_headers();
        let mut i: usize = 0;
        while i < entries.len()
            invariant
                entries.deep_view() == all,
                delay_name@ == "trigger-delay"@,
                cron_name@ == "trigger-cron"@,
                method_name@ == "trigger-method"@,
                0 <= i <= entries.len(),
                trigger_delay.deep_view() == last_value(all.take(i as int), "trigger-delay"@),
                trigger_cron.deep_view() == last_value(all.take(i as int), "trigger-cron"@),
                method_value.deep_view() == last_value(all.take(i as int), "trigger-method"@),
                forwarding_holds(header_fields(forwarded_headers), all.take(i as int)),
            decreases entries.len() - i,
        {
            proof {
                reveal_strlit("trigger-delay");
                reveal_strlit("trigger-cron");
                reveal_strlit("trigger-method");
                forwarded_is_finite(all.take(i as int));
                forwarded_is_finite(all.take(i + 1));
            }
            assert(all.take(i + 1).drop_last() == all.take(i as int));
            match &entries[i].1 {
                Some(value) => {
                    if entries[i].0 == delay_name {
                        trigger_delay = Some(value.clone());
                    } else if entries[i].0 == cron_name {
                        trigger_cron = Some(value.clone());
                    } else if entries[i].0 == method_name {
                        method_value = Some(value.clone());
                    }
                    capture_forward_headers(
                        &mut forwarded_headers,
                        entries[i].0.as_str(),
                        value.as_str(),
                    );
                },
                None => {},
            }
            i += 1;
        }
        assert(all.take(entries.len() as int) == all);
        let trigger_method = match method_value {
            Some(value) => if value == get {
                Method::Get
            } else {
                Method::Post
            },
            None => Method::Post,
        };
        TriggerHeader { trigger_delay, trigger_cron, trigger_method, forwarded_headers }
    }
}

} // verus!
