use vstd::prelude::*;
use vstd::string::*;

use crate::json::{member, JsonValue};

verus! {

#[verifier::external_type_specification]
#[verifier::external_body]
pub struct ExUrl(url::Url);

#[verifier::external_type_specification]
#[verifier::external_body]
pub struct ExParseError(url::ParseError);

/// Whether `url::Url::parse` accepts the text as an absolute URL.
pub uninterp spec fn url_parses(s: Seq<char>) -> bool;

/// Relies on `url::Url::parse`: whether a text parses depends on the text alone.
#[verifier::external_body]
fn parse_url(s: &str) -> (r: Result<url::Url, url::ParseError>)
    ensures
        r is Ok <==> url_parses(s@),
{
    url::Url::parse(s)
}

/// Relies on `String::push`: the character is appended.
pub assume_specification[ String::push ](s: &mut String, ch: char)
    ensures
        final(s)@ == old(s)@.push(ch),
;

/// Why a translation could not be had.
#[derive(PartialEq, Eq, Structural, Clone, Copy, Debug)]
pub enum TranslateError {
    /// The base URL with `/translate` appended is not a URL.
    InvalidUrl,
    /// The request did not reach the service.
    Unreachable,
    /// The service answered with a status outside 200..=299.
    Status,
    /// The answer has no `translatedText` string.
    MalformedResponse,
}

impl TranslateError {
    pub fn message(&self) -> (r: String) {
        match self {
            TranslateError::InvalidUrl => String::from_str("Invalid translation service URL."),
            TranslateError::Unreachable => String::from_str("Error retrieving response from translation API."),
            TranslateError::Status => String::from_str("Translation API answered with an error status."),
            TranslateError::MalformedResponse => String::from_str("Translation API answer holds no translation."),
        }
    }
}

/// The whitespace that separates words: space, tab, line feed, form feed, carriage return.
pub open spec fn is_ascii_ws(c: char) -> bool {
    c == ' ' || c == '\t' || c == '\n' || c == '\x0C' || c == '\r'
}

/// The words of `s`: its maximal runs of characters that are not ASCII whitespace.
pub open spec fn words(s: Seq<char>) -> Seq<Seq<char>>
    decreases s.len(),
{
    if s.len() == 0 {
        seq![]
    } else {
        let p = s.drop_last();
        let w = words(p);
        let c = s.last();
        if is_ascii_ws(c) {
            w
        } else if p.len() > 0 && !is_ascii_ws(p.last()) {
            w.update(w.len() - 1, w.last().push(c))
        } else {
            w.push(seq![c])
        }
    }
}

/// A translation that repeats one word is that word; any other stays as it is.
pub open spec fn truncated(s: Seq<char>) -> Seq<char> {
    let w = words(s);
    if w.len() > 0 && forall|i: int| 0 <= i < w.len() ==> #[trigger] w[i] == w[0] {
        w[0]
    } else {
        s
    }
}

pub open spec fn views(v: Seq<String>) -> Seq<Seq<char>> {
    v.map_values(|x: String| x@)
}

/// The words of `s`, as `words` gives them.
pub fn split_words(s: &str) -> (r: Vec<String>)
    ensures
        views(r@) == words(s@),
{
    let mut done: Vec<String> = Vec::new();
    let mut cur = String::new();
    let mut in_word = false;
    for c in it: s.chars()
        invariant
            it.seq() == s@,
            in_word == (it.index() > 0 && !is_ascii_ws(s@[it.index() - 1])),
            words(s@.take(it.index() as int)) == if in_word {
                views(done@).push(cur@)
            } else {
                views(done@)
            },
    {
        let ghost p = s@.take(it.index() as int);
        proof {
            assert(s@.take(it.index() + 1).drop_last() =~= p);
            assert(s@.take(it.index() + 1).last() == c);
        }
        if c == ' ' || c == '\t' || c == '\n' || c == '\x0C' || c == '\r' {
            if in_word {
                done.push(cur);
                cur = String::new();
                proof {
                    assert(views(done@) =~= words(p));
                }
            }
            in_word = false;
        } else {
            let ghost before = cur@;
            if !in_word {
                cur = String::new();
            }
            cur.push(c);
            in_word = true;
            proof {
                if p.len() > 0 && !is_ascii_ws(p.last()) {
                    assert(words(s@.take(it.index() + 1)) =~= views(done@).push(cur@));
                } else {
                    assert(words(s@.take(it.index() + 1)) =~= views(done@).push(cur@));
                }
            }
        }
    }
    proof {
        assert(s@.take(s@.len() as int) =~= s@);
    }
    if in_word {
        done.push(cur);
        proof {
            assert(views(done@) =~= words(s@));
        }
    }
    done
}

/// Collapses a translation whose words are all the same word to that word.
pub fn truncate_translation(translation: String) -> (r: String)
    ensures
        r@ == truncated(translation@),
{
    let ws = split_words(translation.as_str());
    proof {
        assert(views(ws@).len() == ws@.len());
    }
    if ws.len() == 0 {
        return translation;
    }
    let mut i: usize = 1;
    while i < ws.len()
        invariant
            1 <= i <= ws@.len(),
            views(ws@) == words(translation@),
            forall|j: int| 0 <= j < i ==> #[trigger] ws@[j]@ == ws@[0]@,
        decreases ws@.len() - i,
    {
        if !ws[i].eq(&ws[0]) {
            proof {
                let w = words(translation@);
                assert(w[i as int] != w[0]);
            }
            return translation;
        }
        i = i + 1;
    }
    proof {
        let w = words(translation@);
        assert forall|j: int| 0 <= j < w.len() implies #[trigger] w[j] == w[0] by {
            assert(w[j] == ws@[j]@);
        }
    }
    ws[0].clone()
}

/// The body of a request to the translation service.
#[derive(Debug)]
pub struct TranslateBody {
    pub q: String,
    pub source: String,
    pub target: String,
    pub format: String,
    pub api_key: String,
}

impl TranslateBody {
    /// Asks for `word` in plain text from `source` to `target`, with an empty key.
    pub fn new(word: &str, source: String, target: String) -> (r: Self)
        ensures
            r.q@ == word@,
            r.source@ == source@,
            r.target@ == target@,
            r.format@ == seq!['t', 'e', 'x', 't'],
            r.api_key@.len() == 0,
    {
        let format = String::from_str("text");
        proof {
            reveal_strlit("text");
            assert(format@ =~= seq!['t', 'e', 'x', 't']);
        }
        TranslateBody { q: word.to_owned(), source, target, format, api_key: String::new() }
    }
}

pub open spec fn translate_path() -> Seq<char> {
    seq!['/', 't', 'r', 'a', 'n', 's', 'l', 'a', 't', 'e']
}

/// The translation endpoint under `base_url`.
pub fn translate_url(base_url: &str) -> (r: Result<url::Url, TranslateError>)
    ensures
        r is Ok <==> url_parses(base_url@ + translate_path()),
        r matches Err(e) ==> e == TranslateError::InvalidUrl,
{
    let mut text = String::from_str(base_url);
    text.append("/translate");
    proof {
        reveal_strlit("/translate");
        assert(text@ =~= base_url@ + translate_path());
    }
    match parse_url(text.as_str()) {
        Ok(u) => Ok(u),
        Err(_) => Err(TranslateError::InvalidUrl),
    }
}

pub open spec fn translated_text_key() -> Seq<char> {
    seq!['t', 'r', 'a', 'n', 's', 'l', 'a', 't', 'e', 'd', 'T', 'e', 'x', 't']
}

/// The translation an answer carries: its status, then the `translatedText` string
/// of its body, collapsed by `truncated`.
pub open spec fn translation_of(success: bool, body: JsonValue) -> Result<Seq<char>, TranslateError> {
    if !success {
        Err(TranslateError::Status)
    } else {
        match member(body, translated_text_key()) {
            Some(JsonValue::Text(t)) => Ok(truncated(t@)),
            _ => Err(TranslateError::MalformedResponse),
        }
    }
}

/// Reads the translation service's answer; `success` is whether its status was 2xx.
pub fn translation_from_response(success: bool, body: &JsonValue) -> (r: Result<String, TranslateError>)
    ensures
        match (r, translation_of(success, *body)) {
            (Ok(t), Ok(u)) => t@ == u,
            (Err(e), Err(f)) => e == f,
            _ => false,
        },
{
    if !success {
        return Err(TranslateError::Status);
    }
    let key = String::from_str("translatedText");
    proof {
        reveal_strlit("translatedText");
        assert(key@ =~= translated_text_key());
    }
    match body.get(&key) {
        Some(JsonValue::Text(t)) => Ok(truncate_translation(t.clone())),
        _ => Err(TranslateError::MalformedResponse),
    }
}

} // verus!
