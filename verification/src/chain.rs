//! The read-only view call that asks the chain for a token's owner and
//! metadata: the request to make and the reading of the answer.

use crate::codec::{json_document, json_text, parse_json, render_json};
use crate::json::{JsonTree, JsonValue};
use crate::text::{decimal, parse_decimal, text_view};
use vstd::prelude::*;

verus! {

/// Why a chain query gave no token.
#[derive(Clone, Copy, Debug, PartialEq, Eq)]
pub enum QueryError {
    /// The node did not answer the call.
    Unanswered,
    /// The answer is no JSON array of tokens.
    Malformed,
    /// The answer is an empty array.
    NoToken,
}

/// A view call to make against the latest block.
#[derive(Clone, Debug, PartialEq, Eq)]
pub struct TokenQuery {
    pub contract: String,
    pub method_name: String,
    /// The arguments of the call, as JSON text.
    pub args: String,
}

/// The content of a view call.
pub struct TokenQueryView {
    pub contract: Seq<char>,
    pub method_name: Seq<char>,
    pub args: Seq<char>,
}

impl TokenQuery {
    /// The content of the call.
    pub open spec fn view(&self) -> TokenQueryView {
        TokenQueryView { contract: self.contract@, method_name: self.method_name@, args: self.args@ }
    }
}

/// The call that asks `contract` for the one token `token_id` stands for:
/// the batch view of tokens, with the token id as the only one asked for.
pub open spec fn token_query_for(contract: Seq<char>, token_id: JsonTree) -> TokenQueryView {
    TokenQueryView {
        contract,
        method_name: "nft_tokens_batch"@,
        args: "{\"token_ids\":["@ + json_text(token_id) + "]}"@,
    }
}

/// Builds the view call for one token, from the JSON text of its id.
pub fn token_query_from_text(contract: &str, token_text: &str) -> (r: TokenQuery)
    ensures
        r@ == (TokenQueryView {
            contract: contract@,
            method_name: "nft_tokens_batch"@,
            args: "{\"token_ids\":["@ + token_text@ + "]}"@,
        }),
{
    let mut args = String::from_str("{\"token_ids\":[");
    args.append(token_text);
    args.append("]}");
    TokenQuery {
        contract: String::from_str(contract),
        method_name: String::from_str("nft_tokens_batch"),
        args,
    }
}

/// Builds the view call that asks `contract` for the token `token_id`.
pub fn token_query(contract: &str, token_id: &JsonValue) -> (r: TokenQuery)
    ensures
        r@ == token_query_for(contract@, token_id@),
{
    let text = render_json(token_id);
    token_query_from_text(contract, text.as_str())
}

/// What the chain knows of a token: its owner and its metadata.
#[derive(Clone, Debug, PartialEq, Eq)]
pub struct TokenView {
    pub owner_id: String,
    pub title: Option<String>,
    pub description: Option<String>,
    pub media: Option<String>,
    pub charity_account_id: String,
    pub artist_account_id: Option<String>,
    pub copies: Option<u64>,
}

/// The content of a token view.
pub struct TokenContent {
    pub owner_id: Seq<char>,
    pub title: Option<Seq<char>>,
    pub description: Option<Seq<char>>,
    pub media: Option<Seq<char>>,
    pub charity_account_id: Seq<char>,
    pub artist_account_id: Option<Seq<char>>,
    pub copies: Option<u64>,
}

impl TokenView {
    /// The content of the token view.
    pub open spec fn view(&self) -> TokenContent {
        TokenContent {
            owner_id: self.owner_id@,
            title: text_view(self.title),
            description: text_view(self.description),
            media: text_view(self.media),
            charity_account_id: self.charity_account_id@,
            artist_account_id: text_view(self.artist_account_id),
            copies: self.copies,
        }
    }
}

/// A member that must be a string; `None` where it is missing or anything
/// else.
pub open spec fn required_string(obj: JsonTree, key: Seq<char>) -> Option<Seq<char>> {
    match obj.member(key) {
        Some(JsonTree::Text(s)) => Some(s),
        _ => None,
    }
}

/// A member that is a string where it is given. Missing and `null` both
/// stand for "not given"; `None` where the member is anything else.
pub open spec fn optional_string(obj: JsonTree, key: Seq<char>) -> Option<Option<Seq<char>>> {
    match obj.member(key) {
        None => Some(None),
        Some(JsonTree::Null) => Some(None),
        Some(JsonTree::Text(s)) => Some(Some(s)),
        Some(_) => None,
    }
}

/// A member that is a whole number below 2^64 where it is given. Missing and
/// `null` both stand for "not given"; `None` where the member is anything
/// else.
pub open spec fn optional_count(obj: JsonTree, key: Seq<char>) -> Option<Option<u64>> {
    match obj.member(key) {
        None => Some(None),
        Some(JsonTree::Null) => Some(None),
        Some(JsonTree::Number(n)) => match decimal(n) {
            Some(v) => if v <= u64::MAX {
                Some(Some(v as u64))
            } else {
                None
            },
            None => None,
        },
        Some(_) => None,
    }
}

/// The token that one item of the answer describes; `None` where the item
/// is not of the shape `{owner_id, metadata: {..}}`.
pub open spec fn token_content(item: JsonTree) -> Option<TokenContent> {
    match (required_string(item, "owner_id"@), item.member("metadata"@)) {
        (Some(owner_id), Some(metadata)) => match (
            optional_string(metadata, "title"@),
            optional_string(metadata, "description"@),
            optional_string(metadata, "media"@),
            required_string(metadata, "charity_account_id"@),
            optional_string(metadata, "artist_account_id"@),
            optional_count(metadata, "copies"@),
        ) {
            (
                Some(title),
                Some(description),
                Some(media),
                Some(charity_account_id),
                Some(artist_account_id),
                Some(copies),
            ) => Some(
                TokenContent {
                    owner_id,
                    title,
                    description,
                    media,
                    charity_account_id,
                    artist_account_id,
                    copies,
                },
            ),
            _ => None,
        },
        _ => None,
    }
}

/// What an answer document gives: the first of its tokens. The document
/// must be an array whose items all describe tokens, and hold at least one.
pub open spec fn token_of_document(doc: JsonTree) -> Result<TokenContent, QueryError> {
    match doc.items() {
        None => Err(QueryError::Malformed),
        Some(items) => if exists|i: int| 0 <= i < items.len() && token_content(items[i]) is None {
            Err(QueryError::Malformed)
        } else if items.len() == 0 {
            Err(QueryError::NoToken)
        } else {
            Ok(token_content(items[0])->0)
        },
    }
}

/// What the bytes of an answer give.
pub open spec fn token_of_response(bytes: Seq<u8>) -> Result<TokenContent, QueryError> {
    match json_document(bytes) {
        Some(doc) => token_of_document(doc),
        None => Err(QueryError::Malformed),
    }
}

/// The content of the outcome of a query.
pub open spec fn answer_view(answer: Result<TokenView, QueryError>) -> Result<
    TokenContent,
    QueryError,
> {
    match answer {
        Ok(token) => Ok(token@),
        Err(e) => Err(e),
    }
}

fn read_required_string(obj: &JsonValue, key: &str) -> (r: Option<String>)
    ensures
        text_view(r) == required_string(obj@, key@),
{
    match obj.get(key) {
        Some(JsonValue::Text(s)) => Some(s.clone()),
        _ => None,
    }
}

fn read_optional_string(obj: &JsonValue, key: &str) -> (r: Option<Option<String>>)
    ensures
        r is Some <==> optional_string(obj@, key@) is Some,
        r matches Some(s) ==> optional_string(obj@, key@) == Some(text_view(s)),
{
    match obj.get(key) {
        None => Some(None),
        Some(JsonValue::Null) => Some(None),
        Some(JsonValue::Text(s)) => Some(Some(s.clone())),
        Some(_) => None,
    }
}

fn read_optional_count(obj: &JsonValue, key: &str) -> (r: Option<Option<u64>>)
    ensures
        r == optional_count(obj@, key@),
{
    match obj.get(key) {
        None => Some(None),
        Some(JsonValue::Null) => Some(None),
        Some(JsonValue::Number(n)) => match parse_decimal(n.as_str()) {
            Some(v) => if v <= u64::MAX as u128 {
                Some(Some(v as u64))
            } else {
                None
            },
            None => None,
        },
        Some(_) => None,
    }
}

/// Reads one item of the answer as a token.
pub fn token_view_of_item(item: &JsonValue) -> (r: Option<TokenView>)
    ensures
        r is Some <==> token_content(item@) is Some,
        r matches Some(token) ==> token_content(item@) == Some(token@),
{
    let owner_id = match read_required_string(item, "owner_id") {
        Some(s) => s,
        None => {
            return None;
        },
    };
    let metadata = match item.get("metadata") {
        Some(m) => m,
        None => {
            return None;
        },
    };
    let title = match read_optional_string(metadata, "title") {
        Some(s) => s,
        None => {
            return None;
        },
    };
    let description = match read_optional_string(metadata, "description") {
        Some(s) => s,
        None => {
            return None;
        },
    };
    let media = match read_optional_string(metadata, "media") {
        Some(s) => s,
        None => {
            return None;
        },
    };
    let charity_account_id = match read_required_string(metadata, "charity_account_id") {
        Some(s) => s,
        None => {
            return None;
        },
    };
    let artist_account_id = match read_optional_string(metadata, "artist_account_id") {
        Some(s) => s,
        None => {
            return None;
        },
    };
    let copies = match read_optional_count(metadata, "copies") {
        Some(c) => c,
        None => {
            return None;
        },
    };
    Some(
        TokenView {
            owner_id,
            title,
            description,
            media,
            charity_account_id,
            artist_account_id,
            copies,
        },
    )
}

/// Reads an answer document: a JSON array of tokens, of which the first is
/// the one asked for.
///
/// Fails with `Malformed` where the document is no array or one of its
/// items is no token, and with `NoToken` where the array is empty.
pub fn token_view_of_document(doc: &JsonValue) -> (r: Result<TokenView, QueryError>)
    ensures
        answer_view(r) == token_of_document(doc@),
{
    let items = match doc.as_array() {
        Some(items) => items,
        None => {
            return Err(QueryError::Malformed);
        },
    };
    let ghost trees = doc@.items()->0;
    let mut first: Option<TokenView> = None;
    let mut i: usize = 0;
    while i < items.len()
        invariant
            i <= items.len(),
            doc@.items() == Some(trees),
            trees.len() == items@.len(),
            forall|j: int| 0 <= j < items@.len() ==> trees[j] == items@[j]@,
            forall|j: int| 0 <= j < i ==> token_content(trees[j]) is Some,
            i == 0 ==> first is None,
            i > 0 ==> first is Some && token_content(trees[0]) == Some(first->0@),
        decreases items.len() - i,
    {
        match token_view_of_item(&items[i]) {
            Some(token) => {
                if i == 0 {
                    first = Some(token);
                }
            },
            None => {
                proof {
                    assert(0 <= i < trees.len() && token_content(trees[i as int]) is None);
                }
                return Err(QueryError::Malformed);
            },
        }
        i = i + 1;
    }
    match first {
        Some(token) => Ok(token),
        None => Err(QueryError::NoToken),
    }
}

/// Reads the bytes of an answer: a JSON document that holds an array of
/// tokens.
pub fn token_view_of_response(bytes: &[u8]) -> (r: Result<TokenView, QueryError>)
    ensures
        answer_view(r) == token_of_response(bytes@),
{
    match parse_json(bytes) {
        Some(doc) => token_view_of_document(&doc),
        None => Err(QueryError::Malformed),
    }
}

} // verus!
