//! The header set of a request, kept in hyper's `HeaderMap`, and the rewrite
//! of its `Host` field.

use hyper::header::{HeaderValue, InvalidHeaderValue};
use hyper::HeaderMap;
use vstd::prelude::*;
use vstd::utf8::*;

verus! {

/// `hyper::header::HeaderValue`, the value of one header field. Nothing is
/// known of it but what [`value_bytes`] says.
#[verifier::external_type_specification]
#[verifier::external_body]
pub struct ExHeaderValue(HeaderValue);

/// `hyper::header::InvalidHeaderValue`, the error of a text that is no
/// header value. It is only passed on.
#[verifier::external_type_specification]
#[verifier::external_body]
pub struct ExInvalidHeaderValue(InvalidHeaderValue);

/// `hyper::HeaderMap`, the header set of a request. Nothing is known of it
/// but what [`header_list`] says.
#[verifier::external_type_specification]
#[verifier::external_body]
#[verifier::reject_recursive_types(T)]
pub struct ExHeaderMap<T>(HeaderMap<T>);

/// One header field: its name, in lower case, and the bytes of its value.
pub type Field = (Seq<char>, Seq<u8>);

/// The bytes of a header value: what `HeaderValue::as_bytes` returns.
pub uninterp spec fn value_bytes(value: HeaderValue) -> Seq<u8>;

/// What a header map holds, in the order in which `HeaderMap::iter` walks
/// it: each field with its name as `HeaderName::as_str` gives it and the
/// bytes of its value. The values of one name follow each other.
pub uninterp spec fn header_list(headers: HeaderMap<HeaderValue>) -> Seq<Field>;

/// The length that a field name stays under.
pub const MAX_NAME_LEN: usize = 65536;

/// Whether `c` may stand in a field name that is its own lower-case form.
pub open spec fn is_name_char(c: char) -> bool {
    ('a' <= c && c <= 'z') || ('0' <= c && c <= '9') || c == '-'
}

/// A field name made of lower-case letters, digits and hyphens.
pub open spec fn is_field_name(name: Seq<char>) -> bool {
    &&& 0 < name.len() < MAX_NAME_LEN
    &&& forall|i: int| 0 <= i < name.len() ==> is_name_char(#[trigger] name[i])
}

/// Whether a byte may stand in a header value: anything from the space on
/// but DEL, and the tab.
pub open spec fn is_value_byte(b: u8) -> bool {
    (b >= 32 && b != 127) || b == 9
}

/// Whether a text, in UTF-8, is made of bytes that may stand in a header value.
pub open spec fn is_value_text(text: Seq<char>) -> bool {
    forall|i: int|
        0 <= i < encode_utf8(text).len() ==> is_value_byte(#[trigger] encode_utf8(text)[i])
}

/// Whether a text is made of printable ASCII alone: the characters from
/// the space to the tilde.
pub open spec fn is_printable(text: Seq<char>) -> bool {
    forall|i: int| 0 <= i < text.len() ==> ' ' <= #[trigger] text[i] <= '~'
}

/// A text of printable ASCII may stand in a header value.
pub proof fn law_printable_text_is_a_value(text: Seq<char>)
    requires
        is_printable(text),
    ensures
        is_value_text(text),
{
    assert(is_ascii_chars(text));
    is_ascii_chars_encode_utf8(text);
    assert forall|i: int| 0 <= i < encode_utf8(text).len() implies is_value_byte(
        #[trigger] encode_utf8(text)[i],
    ) by {
        assert(text[i] as u8 == encode_utf8(text)[i]);
    }
}

/// Whether a field of that name is among `fields`.
pub open spec fn has_name(fields: Seq<Field>, name: Seq<char>) -> bool {
    exists|i: int| 0 <= i < fields.len() && (#[trigger] fields[i]).0 == name
}

/// The fields of every other name, in their order.
pub open spec fn others(fields: Seq<Field>, name: Seq<char>) -> Seq<Field>
    decreases fields.len(),
{
    if fields.len() == 0 {
        fields
    } else if fields[0].0 == name {
        others(fields.drop_first(), name)
    } else {
        seq![fields[0]] + others(fields.drop_first(), name)
    }
}

/// The values of the fields of that name, in their order.
pub open spec fn values_of(fields: Seq<Field>, name: Seq<char>) -> Seq<Seq<u8>>
    decreases fields.len(),
{
    if fields.len() == 0 {
        Seq::empty()
    } else if fields[0].0 == name {
        seq![fields[0].1] + values_of(fields.drop_first(), name)
    } else {
        values_of(fields.drop_first(), name)
    }
}

/// The fields once `name` is given the one value `value`: the first field of
/// that name holds the value, in its place, and the later fields of that
/// name are gone. Every other field stays where it is. Where no field has
/// the name, nothing changes.
pub open spec fn set_field(fields: Seq<Field>, name: Seq<char>, value: Seq<u8>) -> Seq<Field>
    decreases fields.len(),
{
    if fields.len() == 0 {
        fields
    } else if fields[0].0 == name {
        seq![(name, value)] + others(fields.drop_first(), name)
    } else {
        seq![fields[0]] + set_field(fields.drop_first(), name, value)
    }
}

/// `HeaderValue::from_str`: the text becomes a header value of the same
/// bytes, and is refused exactly when one of its bytes may not stand in one.
#[verifier::external_body]
pub(crate) fn header_value(text: &str) -> (value: Result<HeaderValue, InvalidHeaderValue>)
    ensures
        value is Ok <==> is_value_text(text@),
        value matches Ok(v) ==> value_bytes(v) == encode_utf8(text@),
{
    HeaderValue::from_str(text)
}

/// `HeaderMap::contains_key` with a `&str` key: whether the map holds a
/// field of that name.
#[verifier::external_body]
pub(crate) fn has_field(headers: &HeaderMap<HeaderValue>, name: &str) -> (found: bool)
    requires
        is_field_name(name@),
    ensures
        found == has_name(header_list(*headers), name@),
{
    headers.contains_key(name)
}

/// `HeaderMap::insert` with a `&'static str` key, for a name that the map
/// holds already: the new value takes the place of the first value of that
/// name, the other values of that name leave, and all else stays as it is and
/// where it is. The first of the values that the name held is returned.
#[verifier::external_body]
pub(crate) fn replace_field(
    headers: &mut HeaderMap<HeaderValue>,
    name: &'static str,
    value: HeaderValue,
) -> (previous: Option<HeaderValue>)
    requires
        is_field_name(name@),
        has_name(header_list(*old(headers)), name@),
    ensures
        header_list(*final(headers)) == set_field(
            header_list(*old(headers)),
            name@,
            value_bytes(value),
        ),
        previous matches Some(first) && values_of(header_list(*old(headers)), name@).len() > 0
            && value_bytes(first) == values_of(header_list(*old(headers)), name@)[0],
{
    headers.insert(name, value)
}

/// The name of the `Host` field, as a header map holds it.
pub open spec fn host_name() -> Seq<char> {
    "host"@
}

/// The header fields that go upstream: where there is a `Host` field, it
/// holds the upstream authority as its one value, and where there is none,
/// none is added. Every other field is kept as it is and where it is.
pub open spec fn with_upstream_host(fields: Seq<Field>, authority: Seq<char>) -> Seq<Field> {
    set_field(fields, host_name(), encode_utf8(authority))
}

/// `host` is a field name that the header map takes as it is written.
pub proof fn lemma_host_is_field_name()
    ensures
        is_field_name(host_name()),
{
    reveal_strlit("host");
}

/// Leaving out a name leaves none of it.
pub proof fn lemma_others_has_none(fields: Seq<Field>, name: Seq<char>)
    ensures
        !has_name(others(fields, name), name),
        values_of(others(fields, name), name) == Seq::<Seq<u8>>::empty(),
        others(others(fields, name), name) == others(fields, name),
    decreases fields.len(),
{
    if fields.len() > 0 {
        let rest = fields.drop_first();
        lemma_others_has_none(rest, name);
        if fields[0].0 != name {
            let kept = seq![fields[0]] + others(rest, name);
            assert(kept.drop_first() =~= others(rest, name));
            assert forall|i: int| 0 <= i < kept.len() implies (#[trigger] kept[i]).0 != name by {
                if i > 0 {
                    assert(kept[i] == others(rest, name)[i - 1]);
                }
            }
        }
    }
}

/// What giving a name one value does, said field by field: a field of the
/// name is there afterwards exactly when one was there before, it is then the
/// only one and holds the value, and the fields of every other name are the
/// same, in the same order.
pub proof fn lemma_set_field(fields: Seq<Field>, name: Seq<char>, value: Seq<u8>)
    ensures
        has_name(set_field(fields, name, value), name) <==> has_name(fields, name),
        has_name(fields, name) ==> values_of(set_field(fields, name, value), name) == seq![value],
        !has_name(fields, name) ==> set_field(fields, name, value) == fields,
        others(set_field(fields, name, value), name) == others(fields, name),
        set_field(fields, name, value).len() <= fields.len(),
    decreases fields.len(),
{
    if fields.len() > 0 {
        let rest = fields.drop_first();
        let after = set_field(fields, name, value);
        if fields[0].0 == name {
            lemma_others_has_none(rest, name);
            assert(after.drop_first() =~= others(rest, name));
            assert(after[0].0 == name);
            assert(has_name(after, name));
            assert(has_name(fields, name));
            assert(values_of(after, name) =~= seq![value]);
            lemma_others_len(rest, name);
        } else {
            lemma_set_field(rest, name, value);
            assert(after.drop_first() =~= set_field(rest, name, value));
            if has_name(rest, name) {
                let i = choose|i: int| 0 <= i < rest.len() && (#[trigger] rest[i]).0 == name;
                assert(fields[i + 1] == rest[i]);
                assert(has_name(fields, name));
                let j = choose|j: int|
                    0 <= j < set_field(rest, name, value).len() && (#[trigger] set_field(
                        rest,
                        name,
                        value,
                    )[j]).0 == name;
                assert(after[j + 1] == set_field(rest, name, value)[j]);
                assert(has_name(after, name));
            } else {
                assert(after =~= fields);
                if has_name(fields, name) {
                    let i = choose|i: int|
                        0 <= i < fields.len() && (#[trigger] fields[i]).0 == name;
                    assert(rest[i - 1] == fields[i]);
                }
            }
        }
    }
}

/// Leaving out a name makes the list no longer.
pub proof fn lemma_others_len(fields: Seq<Field>, name: Seq<char>)
    ensures
        others(fields, name).len() <= fields.len(),
    decreases fields.len(),
{
    if fields.len() > 0 {
        lemma_others_len(fields.drop_first(), name);
    }
}

/// Whatever the `Host` field held, afterwards it holds the upstream
/// authority and nothing else; a header set without a `Host` field gets
/// none; and the fields of every other name are the same, in the same order.
pub proof fn law_host_names_upstream(fields: Seq<Field>, authority: Seq<char>)
    ensures
        has_name(with_upstream_host(fields, authority), host_name()) <==> has_name(
            fields,
            host_name(),
        ),
        has_name(fields, host_name()) ==> values_of(
            with_upstream_host(fields, authority),
            host_name(),
        ) == seq![encode_utf8(authority)],
        !has_name(fields, host_name()) ==> with_upstream_host(fields, authority) == fields,
        others(with_upstream_host(fields, authority), host_name()) == others(fields, host_name()),
{
    lemma_set_field(fields, host_name(), encode_utf8(authority));
}

/// Rewriting twice with the same authority changes nothing more.
pub proof fn law_rewrite_is_idempotent(fields: Seq<Field>, authority: Seq<char>)
    ensures
        with_upstream_host(with_upstream_host(fields, authority), authority) == with_upstream_host(
            fields,
            authority,
        ),
    decreases fields.len(),
{
    let name = host_name();
    let value = encode_utf8(authority);
    if fields.len() > 0 {
        let rest = fields.drop_first();
        let once = set_field(fields, name, value);
        if fields[0].0 == name {
            lemma_others_has_none(rest, name);
            assert(once.drop_first() =~= others(rest, name));
        } else {
            law_rewrite_is_idempotent(rest, authority);
            assert(once.drop_first() =~= set_field(rest, name, value));
        }
    }
}

/// Points the `Host` field of `headers` at the upstream: if the field is
/// there, `authority` becomes its one value. A refused authority leaves the
/// headers as they were.
pub fn rewrite_host(headers: &mut HeaderMap<HeaderValue>, authority: &str) -> (res: Result<
    (),
    InvalidHeaderValue,
>)
    ensures
        res is Err <==> has_name(header_list(*old(headers)), host_name()) && !is_value_text(
            authority@,
        ),
        res is Ok ==> header_list(*final(headers)) == with_upstream_host(
            header_list(*old(headers)),
            authority@,
        ),
        res is Err ==> *final(headers) == *old(headers),
{
    proof {
        lemma_host_is_field_name();
        lemma_set_field(header_list(*headers), host_name(), encode_utf8(authority@));
    }
    if has_field(headers, "host") {
        let value = match header_value(authority) {
            Ok(value) => value,
            Err(refused) => {
                return Err(refused);
            },
        };
        replace_field(headers, "host", value);
    }
    Ok(())
}

} // verus!
