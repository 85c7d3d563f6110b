//! Bearer credentials: a fixed set of tokens, and the rule that admits a
//! request by the bearer token in its authorization header.

use crate::config::text_setting;
use crate::text::{pieces, split, strip_prefix, trim, trimmed, without_prefix};
use vstd::hash_set::StringHashSet;
use vstd::prelude::*;

verus! {

/// The status that a rejected request is answered with.
pub const UNAUTHORIZED: u16 = 401;

/// The tokens that a comma-separated list names: each piece without the
/// whitespace around it, empty pieces left out.
pub open spec fn token_set(raw: Seq<char>) -> Set<Seq<char>> {
    Set::new(
        |t: Seq<char>|
            t.len() > 0 && exists|k: int|
                0 <= k < pieces(raw, ',').len() && trimmed(#[trigger] pieces(raw, ',')[k]) == t,
    )
}

/// The tokens among the first `n` pieces of `raw`.
pub open spec fn token_set_upto(raw: Seq<char>, n: int) -> Set<Seq<char>> {
    Set::new(
        |t: Seq<char>|
            t.len() > 0 && exists|k: int|
                0 <= k < n && k < pieces(raw, ',').len() && trimmed(#[trigger] pieces(raw, ',')[k])
                    == t,
    )
}

/// The bytes that a header value may hold to be read as text: the printable
/// ASCII characters, the space and the tab.
pub open spec fn is_visible_ascii(b: u8) -> bool {
    (32 <= b < 127) || b == 9
}

/// A header value as text: its bytes as characters, where all of them are
/// visible ASCII.
pub open spec fn header_text(bytes: Seq<u8>) -> Option<Seq<char>> {
    if forall|i: int| 0 <= i < bytes.len() ==> is_visible_ascii(#[trigger] bytes[i]) {
        Some(Seq::new(bytes.len(), |i: int| bytes[i] as char))
    } else {
        None
    }
}

/// The bytes of an authorization header, where there is one.
pub open spec fn header_bytes(authorization: Option<&[u8]>) -> Option<Seq<u8>> {
    match authorization {
        Some(bytes) => Some(bytes@),
        None => None,
    }
}

/// The token that an authorization header presents: what follows `Bearer `
/// in a header that reads as text.
pub open spec fn bearer_token(header: Option<Seq<u8>>) -> Option<Seq<char>> {
    match header {
        None => None,
        Some(bytes) => match header_text(bytes) {
            None => None,
            Some(text) => without_prefix(text, "Bearer "@),
        },
    }
}

/// Whether a request with this authorization header is let through.
pub open spec fn admitted(tokens: Set<Seq<char>>, header: Option<Seq<u8>>) -> bool {
    match bearer_token(header) {
        Some(token) => tokens.contains(token),
        None => false,
    }
}

/// The header that presents `token`.
pub open spec fn bearer_header(token: Seq<char>) -> Seq<u8> {
    let text = "Bearer "@ + token;
    Seq::new(text.len(), |i: int| text[i] as u8)
}

/// The characters that a header value can present.
pub open spec fn is_visible_char(c: char) -> bool {
    let u = c as u32;
    (32 <= u && u < 127) || u == 9
}

/// Whether every character of `text` is visible ASCII.
pub open spec fn is_visible_text(text: Seq<char>) -> bool {
    forall|i: int| 0 <= i < text.len() ==> is_visible_char(#[trigger] text[i])
}

/// The set of tokens that requests are checked against. It is made once and
/// never changes.
pub struct TokenStore {
    valid_tokens: StringHashSet,
}

impl View for TokenStore {
    type V = Set<Seq<char>>;

    closed spec fn view(&self) -> Set<Seq<char>> {
        self.valid_tokens@
    }
}

impl TokenStore {
    /// The store for the token list setting: a comma-separated list, absent
    /// meaning empty.
    pub fn from_env(raw: Option<&str>) -> (store: TokenStore)
        ensures
            store@ == token_set(text_setting(raw, Seq::<char>::empty())),
    {
        let text: &str = match raw {
            Some(text) => text,
            None => {
                proof {
                    reveal_strlit("");
                    assert(""@ == Seq::<char>::empty());
                }
                ""
            },
        };
        let parts = split(text, ',');
        let mut valid_tokens = StringHashSet::new();
        let mut k: usize = 0;
        proof {
            assert(valid_tokens@ == token_set_upto(text@, 0));
        }
        while k < parts.len()
            invariant
                k <= parts.len(),
                parts@.len() == pieces(text@, ',').len(),
                forall|j: int|
                    0 <= j < parts@.len() ==> (#[trigger] parts@[j])@ == pieces(text@, ',')[j],
                valid_tokens@ == token_set_upto(text@, k as int),
            decreases parts.len() - k,
        {
            let token = trim(parts[k]);
            let ghost before = valid_tokens@;
            if !token.is_empty() {
                valid_tokens.insert(token.to_owned());
            }
            proof {
                let piece = pieces(text@, ',')[k as int];
                assert(parts@[k as int]@ == piece);
                assert(token@ == trimmed(piece));
                assert forall|t: Seq<char>|
                    valid_tokens@.contains(t) == token_set_upto(text@, k + 1).contains(t) by {
                    if token_set_upto(text@, k + 1).contains(t) {
                        let w = choose|w: int|
                            0 <= w < k + 1 && w < pieces(text@, ',').len() && trimmed(
                                #[trigger] pieces(text@, ',')[w],
                            ) == t;
                        if w < k {
                            assert(before.contains(t));
                        }
                    }
                    if before.contains(t) {
                        assert(token_set_upto(text@, k as int).contains(t));
                    }
                }
                assert(valid_tokens@ == token_set_upto(text@, k + 1));
            }
            k = k + 1;
        }
        proof {
            assert(token_set_upto(text@, k as int) == token_set(text@));
        }
        TokenStore { valid_tokens }
    }

    /// Whether `token` is one of the store's tokens.
    pub fn is_valid(&self, token: &str) -> (valid: bool)
        ensures
            valid == self@.contains(token@),
    {
        self.valid_tokens.contains(token)
    }
}

/// A header value as text, where all of its bytes are visible ASCII.
pub fn visible_text(bytes: &[u8]) -> (r: Option<String>)
    ensures
        match r {
            Some(text) => header_text(bytes@) == Some(text@),
            None => header_text(bytes@) is None,
        },
{
    let mut text = String::new();
    let mut k: usize = 0;
    while k < bytes.len()
        invariant
            k <= bytes.len(),
            forall|j: int| 0 <= j < k ==> is_visible_ascii(#[trigger] bytes@[j]),
            text@ == Seq::new(k as nat, |i: int| bytes@[i] as char),
        decreases bytes.len() - k,
    {
        let b: u8 = bytes[k];
        if !((32 <= b && b < 127) || b == 9) {
            return None;
        }
        text.push(b as char);
        proof {
            assert(text@ == Seq::new((k + 1) as nat, |i: int| bytes@[i] as char));
        }
        k = k + 1;
    }
    Some(text)
}

/// The bearer token that an authorization header presents, if it presents
/// one: the header must read as text and start with `Bearer `.
pub fn extract_token(authorization: Option<&[u8]>) -> (token: Option<String>)
    ensures
        match token {
            Some(t) => bearer_token(header_bytes(authorization)) == Some(t@),
            None => bearer_token(header_bytes(authorization)) is None,
        },
{
    match authorization {
        None => None,
        Some(bytes) => match visible_text(bytes) {
            None => None,
            Some(text) => match strip_prefix(text.as_str(), "Bearer ") {
                None => None,
                Some(rest) => Some(rest.to_owned()),
            },
        },
    }
}

/// Decides whether a request is let through: `Ok` where its authorization
/// header presents a token of the store, else the unauthorized status,
/// whatever the reason.
pub fn auth_middleware(token_store: &TokenStore, authorization: Option<&[u8]>) -> (r: Result<
    (),
    u16,
>)
    ensures
        r == if admitted(token_store@, header_bytes(authorization)) {
            Ok::<(), u16>(())
        } else {
            Err::<(), u16>(UNAUTHORIZED)
        },
{
    match extract_token(authorization) {
        Some(token) => {
            if token_store.is_valid(token.as_str()) {
                Ok(())
            } else {
                Err(UNAUTHORIZED)
            }
        },
        None => Err(UNAUTHORIZED),
    }
}

/// A request without an authorization header is rejected.
pub proof fn lemma_absent_header_rejected(tokens: Set<Seq<char>>)
    ensures
        !admitted(tokens, None),
{
}

/// A header that does not read as text, or does not start with `Bearer `, is
/// rejected.
pub proof fn lemma_malformed_header_rejected(tokens: Set<Seq<char>>, bytes: Seq<u8>)
    requires
        header_text(bytes) is None || !"Bearer "@.is_prefix_of(header_text(bytes).unwrap()),
    ensures
        !admitted(tokens, Some(bytes)),
{
}

/// A visible character is the same after a passage through its byte.
pub proof fn lemma_visible_char_is_its_byte(c: char)
    requires
        is_visible_char(c),
    ensures
        is_visible_ascii(c as u8),
        (c as u8) as char == c,
{
    let u = c as u32;
    vstd::utf8::char_u32_cast(c, u);
    assert((c as u8) as u32 == u);
    assert(((c as u8) as u32) as char == c);
}

/// What a header presents is the token behind `Bearer `, and a visible token
/// is presented by its header.
pub proof fn lemma_bearer_header_presents(token: Seq<char>)
    requires
        is_visible_text(token),
    ensures
        bearer_token(Some(bearer_header(token))) == Some(token),
{
    reveal_strlit("Bearer ");
    let prefix = "Bearer "@;
    let text = prefix + token;
    let bytes = bearer_header(token);
    assert(is_visible_text(prefix)) by {
        assert(prefix.len() == 7);
        assert(prefix[0] == 'B' && prefix[1] == 'e' && prefix[2] == 'a' && prefix[3] == 'r');
        assert(prefix[4] == 'e' && prefix[5] == 'r' && prefix[6] == ' ');
    }
    assert forall|i: int| 0 <= i < text.len() implies is_visible_char(#[trigger] text[i]) by {
        if i < prefix.len() {
            assert(text[i] == prefix[i]);
        } else {
            assert(text[i] == token[i - prefix.len()]);
        }
    }
    assert forall|i: int| 0 <= i < bytes.len() implies is_visible_ascii(#[trigger] bytes[i]) by {
        lemma_visible_char_is_its_byte(text[i]);
    }
    let read = Seq::new(bytes.len(), |i: int| bytes[i] as char);
    assert(read =~= text) by {
        assert forall|i: int| 0 <= i < text.len() implies read[i] == text[i] by {
            lemma_visible_char_is_its_byte(text[i]);
        }
    }
    assert(header_text(bytes) == Some(text));
    assert(text.subrange(0, prefix.len() as int) =~= prefix);
    assert(text.skip(prefix.len() as int) =~= token);
}

/// A token that the store does not hold is rejected.
pub proof fn lemma_unknown_token_rejected(tokens: Set<Seq<char>>, token: Seq<char>)
    requires
        is_visible_text(token),
        !tokens.contains(token),
    ensures
        !admitted(tokens, Some(bearer_header(token))),
{
    lemma_bearer_header_presents(token);
}

/// A token of the store passes, presented in a header.
pub proof fn lemma_valid_token_passes(tokens: Set<Seq<char>>, token: Seq<char>)
    requires
        is_visible_text(token),
        tokens.contains(token),
    ensures
        admitted(tokens, Some(bearer_header(token))),
{
    lemma_bearer_header_presents(token);
}

} // verus!
