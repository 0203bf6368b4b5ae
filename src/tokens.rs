use vstd::prelude::*;
use vstd::utf8::{decode_utf8, valid_utf8};
use tiktoken_rs::CoreBPE;

verus! {

#[verifier::external_type_specification]
#[verifier::external_body]
pub struct ExCoreBPE(CoreBPE);

/// The token ids that the cl100k_base encoding gives to `text`, with no
/// special-token interpretation; `None` when its splitting pattern gives up
/// on the text (the regex engine's backtracking limits).
pub uninterp spec fn cl100k_encoding(text: Seq<char>) -> Option<Seq<u32>>;

/// The number of tokens in `text`, or `None` when it cannot be encoded.
pub open spec fn text_tokens(text: Seq<char>) -> Option<nat> {
    match cl100k_encoding(text) {
        Some(ids) => Some(ids.len()),
        None => None,
    }
}

/// The text that a file's bytes hold, or `None` when they are not UTF-8.
pub open spec fn decoded(bytes: Seq<u8>) -> Option<Seq<char>> {
    if valid_utf8(bytes) {
        Some(decode_utf8(bytes))
    } else {
        None
    }
}

/// Relies on tiktoken_rs::cl100k_base: builds the cl100k_base encoder, or
/// fails when its vocabulary cannot be loaded.
#[verifier::external_body]
fn load_cl100k() -> (r: Option<CoreBPE>) {
    tiktoken_rs::cl100k_base().ok()
}

/// Relies on std::str::from_utf8: the bytes are read as a string exactly
/// when they are valid UTF-8.
#[verifier::external_body]
fn utf8_text(bytes: &[u8]) -> (r: Option<&str>)
    ensures
        match r {
            Some(s) => decoded(bytes@) == Some(s@),
            None => decoded(bytes@) is None,
        },
{
    std::str::from_utf8(bytes).ok()
}

/// The cl100k_base tokenizer, loaded once per run.
pub struct Tokenizer {
    bpe: CoreBPE,
}

impl Tokenizer {
    /// Loads the cl100k_base encoding; `None` when it is unavailable.
    pub fn load() -> (r: Option<Tokenizer>) {
        match load_cl100k() {
            Some(bpe) => Some(Tokenizer { bpe }),
            None => None,
        }
    }

    /// Relies on tiktoken_rs::CoreBPE::encode with no special token allowed,
    /// which encodes the whole text as ordinary text: every `Tokenizer` holds
    /// the cl100k_base encoder (`load` is its only constructor), so the result
    /// depends on the text alone. A failure of the splitting pattern comes back
    /// as an error (mapped to `None`). An empty text has no match of the
    /// pattern and so no tokens.
    #[verifier::external_body]
    fn encode(&self, text: &str) -> (r: Option<Vec<u32>>)
        ensures
            match r {
                Some(ids) => cl100k_encoding(text@) == Some(ids@),
                None => cl100k_encoding(text@) is None,
            },
            text@.len() == 0 ==> r is Some && r->Some_0@.len() == 0,
    {
        let allowed: std::collections::HashSet<&str> = std::collections::HashSet::new();
        match self.bpe.encode(text, &allowed) {
            Ok((ids, _)) => Some(ids),
            Err(_) => None,
        }
    }

    /// Number of tokens in `text`; `None` when the text cannot be encoded.
    pub fn count(&self, text: &str) -> (r: Option<usize>)
        ensures
            match r {
                Some(n) => text_tokens(text@) == Some(n as nat),
                None => text_tokens(text@) is None,
            },
            text@.len() == 0 ==> r == Some(0usize),
    {
        match self.encode(text) {
            Some(ids) => Some(ids.len()),
            None => None,
        }
    }

    /// Tokens in a file's content: the count of its text, or 0 when the
    /// content could not be read (`None`), is not valid UTF-8, or cannot be
    /// encoded; such a file is skipped.
    pub fn count_content(&self, content: &Option<Vec<u8>>) -> (r: usize)
        ensures
            r == content_tokens(content_view(*content)),
            content_view(*content) == Some(Seq::<u8>::empty()) ==> r == 0,
    {
        match content {
            None => 0,
            Some(bytes) => {
                proof {
                    if bytes@.len() == 0 {
                        assert(valid_utf8(bytes@));
                        assert(decode_utf8(bytes@) =~= Seq::<char>::empty());
                    }
                }
                match utf8_text(bytes.as_slice()) {
                    Some(text) => match self.count(text) {
                        Some(n) => n,
                        None => 0,
                    },
                    None => 0,
                }
            },
        }
    }
}

/// A file's content as read, or `None` when reading failed.
pub open spec fn content_view(content: Option<Vec<u8>>) -> Option<Seq<u8>> {
    match content {
        Some(c) => Some(c@),
        None => None,
    }
}

/// The token count that a file's content contributes to the total.
pub open spec fn content_tokens(content: Option<Seq<u8>>) -> nat {
    match content {
        Some(bytes) => match decoded(bytes) {
            Some(text) => match text_tokens(text) {
                Some(n) => n,
                None => 0,
            },
            None => 0,
        },
        None => 0,
    }
}

} // verus!
