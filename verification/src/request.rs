//! The one request that the translator sends: a form post to the translation
//! service, with the credential in its authorization header.

use vstd::prelude::*;
use vstd::string::*;
use vstd::utf8::*;

verus! {

/// Where translation requests go.
pub const ENDPOINT: &'static str = "https://api-free.deepl.com/v2/translate";

/// What stands before the credential in the authorization header.
pub const AUTH_SCHEME: &'static str = "DeepL-Auth-Key ";

/// How the translator names itself to the service.
pub const USER_AGENT: &'static str = "ubersetzer/1.0";

/// The language that every word is translated into.
pub const TARGET_LANGUAGE: &'static str = "FR";

/// The word that is sent to try a credential out.
pub const TRIAL_WORD: &'static str = "Test";

/// One field of a form body.
#[derive(Debug, PartialEq, Eq)]
pub struct FormField {
    pub name: String,
    pub value: String,
}

/// A translation request, ready to be posted.
#[derive(Debug, PartialEq, Eq)]
pub struct TranslationRequest {
    pub url: String,
    /// The value of the `Authorization` header.
    pub authorization: String,
    /// The value of the `User-Agent` header.
    pub user_agent: String,
    /// The fields of the form body, in the order in which they are sent.
    pub form: Vec<FormField>,
}

/// The mathematical value of a [`TranslationRequest`].
pub struct RequestView {
    pub url: Seq<char>,
    pub authorization: Seq<char>,
    pub user_agent: Seq<char>,
    pub form: Seq<(Seq<char>, Seq<char>)>,
}

impl View for FormField {
    type V = (Seq<char>, Seq<char>);

    open spec fn view(&self) -> (Seq<char>, Seq<char>) {
        (self.name@, self.value@)
    }
}

impl View for TranslationRequest {
    type V = RequestView;

    open spec fn view(&self) -> RequestView {
        RequestView {
            url: self.url@,
            authorization: self.authorization@,
            user_agent: self.user_agent@,
            form: Seq::new(self.form@.len(), |i: int| self.form@[i]@),
        }
    }
}

/// Whether a header value may hold this byte: a tab, or anything from the
/// space on but the delete character.
pub open spec fn header_byte_allowed(b: u8) -> bool {
    b >= 32 && b != 127 || b == 9
}

/// Whether a header value may hold this character.
pub open spec fn header_char_allowed(c: char) -> bool {
    c == '\t' || (' ' <= c && c != '\u{7f}')
}

/// Whether a header value may be made of these bytes.
pub open spec fn header_bytes_allowed(bytes: Seq<u8>) -> bool {
    forall|i: int| 0 <= i < bytes.len() ==> header_byte_allowed(#[trigger] bytes[i])
}

/// Whether a header value may be made of this text.
pub open spec fn header_text_allowed(text: Seq<char>) -> bool {
    forall|i: int| 0 <= i < text.len() ==> header_char_allowed(#[trigger] text[i])
}

/// The request that asks for the translation of `word` under the credential
/// `auth`.
pub open spec fn request_for(auth: Seq<char>, word: Seq<char>) -> RequestView {
    RequestView {
        url: ENDPOINT@,
        authorization: AUTH_SCHEME@ + auth,
        user_agent: USER_AGENT@,
        form: seq![("text"@, word), ("target_lang"@, TARGET_LANGUAGE@)],
    }
}

/// Calls `HeaderValue::from_str` of the `http` crate, as `reqwest` hands it
/// on, and says whether it took the text. It takes a text exactly when every
/// byte of it is a tab, or at least 32 and not 127.
#[verifier::external_body]
fn header_value_accepts(text: &str) -> (accepted: bool)
    ensures
        accepted == header_bytes_allowed(text.spec_bytes()),
{
    reqwest::header::HeaderValue::from_str(text).is_ok()
}

proof fn lemma_scalar_bytes_allowed(c: u32)
    by (bit_vector)
    requires
        c > 0x7f,
    ensures
        (0xC0u8 | ((c >> 6) & 0x1F) as u8) >= 0x80,
        (0xE0u8 | ((c >> 12) & 0x0F) as u8) >= 0x80,
        (0xF0u8 | ((c >> 18) & 0x7) as u8) >= 0x80,
        (0x80u8 | (c & 0x3F) as u8) >= 0x80,
        (0x80u8 | ((c >> 6) & 0x3F) as u8) >= 0x80,
        (0x80u8 | ((c >> 12) & 0x3F) as u8) >= 0x80,
{
}

proof fn lemma_ascii_byte(c: u32)
    by (bit_vector)
    requires
        c <= 0x7f,
    ensures
        (c & 0x7F) as u8 == c,
{
}

/// The bytes that encode one character are allowed in a header value exactly
/// when the character is.
proof fn lemma_char_bytes_allowed(c: char)
    ensures
        header_bytes_allowed(encode_scalar(c as u32)) <==> header_char_allowed(c),
{
    let s = c as u32;
    let bytes = encode_scalar(s);
    if has_width_1_encoding(s) {
        lemma_ascii_byte(s);
        assert(bytes[0] == s);
        if header_bytes_allowed(bytes) {
            assert(header_byte_allowed(bytes[0]));
        }
    } else {
        lemma_scalar_bytes_allowed(s);
        assert(header_char_allowed(c));
        assert forall|i: int| 0 <= i < bytes.len() implies header_byte_allowed(
            #[trigger] bytes[i],
        ) by {
            assert(bytes[i] >= 0x80);
        }
    }
}

/// A text is allowed in a header value, character by character, exactly when
/// its UTF-8 encoding is, byte by byte.
pub proof fn lemma_header_text_bytes(text: Seq<char>)
    ensures
        header_bytes_allowed(encode_utf8(text)) <==> header_text_allowed(text),
    decreases text.len(),
{
    if text.len() == 0 {
    } else {
        let head = encode_scalar(text[0] as u32);
        let rest = text.drop_first();
        let tail = encode_utf8(rest);
        lemma_char_bytes_allowed(text[0]);
        lemma_header_text_bytes(rest);
        assert(encode_utf8(text) == head + tail);
        if header_text_allowed(text) {
            assert(header_char_allowed(text[0]));
            assert forall|i: int| 0 <= i < rest.len() implies header_char_allowed(
                #[trigger] rest[i],
            ) by {
                assert(rest[i] == text[i + 1]);
            }
            assert forall|i: int| 0 <= i < (head + tail).len() implies header_byte_allowed(
                #[trigger] (head + tail)[i],
            ) by {
                if i < head.len() {
                    assert((head + tail)[i] == head[i]);
                } else {
                    assert((head + tail)[i] == tail[i - head.len()]);
                }
            }
        }
        if header_bytes_allowed(head + tail) {
            assert forall|i: int| 0 <= i < head.len() implies header_byte_allowed(
                #[trigger] head[i],
            ) by {
                assert(head[i] == (head + tail)[i]);
            }
            assert forall|i: int| 0 <= i < tail.len() implies header_byte_allowed(
                #[trigger] tail[i],
            ) by {
                assert(tail[i] == (head + tail)[i + head.len()]);
            }
            assert forall|i: int| 0 <= i < text.len() implies header_char_allowed(
                #[trigger] text[i],
            ) by {
                if i > 0 {
                    assert(text[i] == rest[i - 1]);
                }
            }
        }
    }
}

/// The authorization scheme is made of characters that a header value may
/// hold, so a credential is refused only for its own characters.
pub proof fn lemma_scheme_allowed(auth: Seq<char>)
    ensures
        header_text_allowed(AUTH_SCHEME@ + auth) <==> header_text_allowed(auth),
{
    reveal_strlit("DeepL-Auth-Key ");
    let scheme = AUTH_SCHEME@;
    let whole = scheme + auth;
    assert(scheme.len() == 15);
    assert(header_text_allowed(scheme));
    if header_text_allowed(auth) {
        assert forall|i: int| 0 <= i < whole.len() implies header_char_allowed(
            #[trigger] whole[i],
        ) by {
            if i < scheme.len() {
                assert(whole[i] == scheme[i]);
            } else {
                assert(whole[i] == auth[i - scheme.len()]);
            }
        }
    }
    if header_text_allowed(whole) {
        assert forall|i: int| 0 <= i < auth.len() implies header_char_allowed(
            #[trigger] auth[i],
        ) by {
            assert(auth[i] == whole[i + scheme.len()]);
        }
    }
}

/// Builds the request that asks for the translation of `word` under the
/// credential `auth`. There is no request where the credential holds a
/// character that a header value may not hold.
pub fn build_request(auth: &str, word: &str) -> (request: Option<TranslationRequest>)
    ensures
        request is Some <==> header_text_allowed(auth@),
        request matches Some(r) ==> r@ == request_for(auth@, word@),
{
    let mut authorization = String::from_str(AUTH_SCHEME);
    authorization.append(auth);
    proof {
        lemma_header_text_bytes(authorization@);
        lemma_scheme_allowed(auth@);
    }
    if !header_value_accepts(authorization.as_str()) {
        return None;
    }
    let mut form: Vec<FormField> = Vec::new();
    form.push(FormField { name: String::from_str("text"), value: String::from_str(word) });
    form.push(
        FormField {
            name: String::from_str("target_lang"),
            value: String::from_str(TARGET_LANGUAGE),
        },
    );
    let request = TranslationRequest {
        url: String::from_str(ENDPOINT),
        authorization,
        user_agent: String::from_str(USER_AGENT),
        form,
    };
    assert(request@.form =~= request_for(auth@, word@).form);
    Some(request)
}

/// Builds the request that tries a credential out.
pub fn trial_request(key: &str) -> (request: Option<TranslationRequest>)
    ensures
        request is Some <==> header_text_allowed(key@),
        request matches Some(r) ==> r@ == request_for(key@, TRIAL_WORD@),
{
    build_request(key, TRIAL_WORD)
}

} // verus!
