//! Header attributes: `key=value` tokens rendered as comment lines that open
//! the compiled text.

use crate::target::{comment_prefix, CompileTarget};
use vstd::prelude::*;
use vstd::std_specs::cmp::PartialEqSpecImpl;
use vstd::utf8::encode_utf8;

verus! {

/// A key and a value that become one comment line of the header.
#[derive(Clone, Debug)]
pub struct HeaderAttribute {
    pub key: String,
    pub value: String,
}

/// The mathematical value of a [`HeaderAttribute`].
pub ghost struct HeaderAttributeView {
    pub key: Seq<char>,
    pub value: Seq<char>,
}

impl View for HeaderAttribute {
    type V = HeaderAttributeView;

    open spec fn view(&self) -> HeaderAttributeView {
        HeaderAttributeView { key: self.key@, value: self.value@ }
    }
}

/// `token` is `key`, one `=`, then `value`, and that `=` is the first one of
/// the token. The value may hold further `=` characters.
pub open spec fn splits_at_first_separator(
    token: Seq<char>,
    key: Seq<char>,
    value: Seq<char>,
) -> bool {
    &&& token == key + seq!['='] + value
    &&& !key.contains('=')
}

/// The comment line of one attribute: marker, space, key, colon and space,
/// value, line break.
pub open spec fn header_line(target: CompileTarget, attr: HeaderAttributeView) -> Seq<char> {
    comment_prefix(target) + " "@ + attr.key + ": "@ + attr.value + "\n"@
}

/// The header block: the comment lines of `attrs`, in order.
pub open spec fn header_block(target: CompileTarget, attrs: Seq<HeaderAttributeView>) -> Seq<
    char,
>
    decreases attrs.len(),
{
    if attrs.len() == 0 {
        Seq::empty()
    } else {
        header_block(target, attrs.drop_last()) + header_line(target, attrs.last())
    }
}

/// The views of a slice of attributes, in order.
pub open spec fn attribute_views(attrs: Seq<HeaderAttribute>) -> Seq<HeaderAttributeView> {
    Seq::new(attrs.len(), |i: int| attrs[i]@)
}

/// Bytes that the comment line of `attr` takes in UTF-8: two for marker and
/// space, two for colon and space, one for the line break, and the key and
/// the value as encoded.
pub open spec fn header_attribute_length(attr: HeaderAttributeView) -> nat {
    2 + encode_utf8(attr.key).len() + 2 + encode_utf8(attr.value).len() + 1
}

impl PartialEq for HeaderAttribute {
    fn eq(&self, other: &HeaderAttribute) -> (same: bool) {
        self.key == other.key && self.value == other.value
    }
}

impl Eq for HeaderAttribute {}

impl PartialEqSpecImpl for HeaderAttribute {
    open spec fn obeys_eq_spec() -> bool {
        true
    }

    open spec fn eq_spec(&self, other: &HeaderAttribute) -> bool {
        self.key@ == other.key@ && self.value@ == other.value@
    }
}

impl HeaderAttribute {
    /// Parses a `key=value` token, splitting at the first `=`.
    /// Fails exactly when the token holds no `=`.
    pub fn from_str(s: &str) -> (parsed: Result<HeaderAttribute, ()>)
        ensures
            parsed is Ok <==> s@.contains('='),
            parsed matches Ok(attr) ==> splits_at_first_separator(s@, attr.key@, attr.value@),
    {
        let n: usize = s.unicode_len();
        let mut i: usize = 0;
        for c in it: s.chars()
            invariant
                n == s@.len(),
                it.seq() == s@,
                i == it.index(),
                forall|j: int| 0 <= j < i ==> s@[j] != '=',
        {
            if c == '=' {
                let key = s.substring_char(0, i);
                let value = s.substring_char(i + 1, n);
                proof {
                    assert(s@ =~= key@ + seq!['='] + value@);
                    assert(s@[i as int] == '=');
                }
                return Ok(HeaderAttribute { key: key.to_owned(), value: value.to_owned() });
            }
            i += 1;
        }
        Err(())
    }

    /// Parses a `key=value` token that is known to hold an `=`.
    pub fn from(value: &str) -> (attr: HeaderAttribute)
        requires
            value@.contains('='),
        ensures
            splits_at_first_separator(value@, attr.key@, attr.value@),
    {
        match HeaderAttribute::from_str(value) {
            Ok(attr) => attr,
            Err(_) => unreached(),
        }
    }

    /// Renders the comment line of this attribute for `target`.
    pub fn line(&self, target: CompileTarget) -> (text: String)
        ensures
            text@ == header_line(target, self@),
    {
        let mut buf = String::new();
        buf.append(target.comment());
        buf.append(" ");
        buf.append(self.key.as_str());
        buf.append(": ");
        buf.append(self.value.as_str());
        buf.append("\n");
        buf
    }
}

/// The byte length of the comment line of `attr`.
pub fn determine_header_attribute_length(attr: &HeaderAttribute) -> (n: usize)
    requires
        header_attribute_length(attr@) <= usize::MAX,
    ensures
        n == header_attribute_length(attr@),
{
    2 + attr.key.as_str().len() + 2 + attr.value.as_str().len() + 1
}

/// Renders the header block: one comment line per attribute, in order.
pub fn render_header(target: CompileTarget, attrs: &[HeaderAttribute]) -> (text: String)
    ensures
        text@ == header_block(target, attribute_views(attrs@)),
{
    let mut out = String::new();
    let n: usize = attrs.len();
    let mut i: usize = 0;
    while i < n
        invariant
            n == attrs@.len(),
            i <= n,
            out@ == header_block(target, attribute_views(attrs@).take(i as int)),
        decreases n - i,
    {
        let line = attrs[i].line(target);
        proof {
            let views = attribute_views(attrs@);
            assert(views.take(i + 1).drop_last() =~= views.take(i as int));
            assert(views.take(i + 1).last() == attrs@[i as int]@);
        }
        out.append(line.as_str());
        i += 1;
    }
    proof {
        assert(attribute_views(attrs@).take(n as int) =~= attribute_views(attrs@));
    }
    out
}

} // verus!
