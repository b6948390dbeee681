//! The request whose reply carries the rate limit in its headers.

use crate::json::{write_object, JsonField};
use crate::product::Product;
use vstd::prelude::*;

verus! {

/// A request: the least that the service answers with the headers that are wanted.
pub struct ApiRequest {
    pub url: String,
    /// Names and values, in order.
    pub headers: Vec<(String, String)>,
    /// A JSON document.
    pub body: Vec<u8>,
}

/// The headers of a request that a token authorises.
pub open spec fn request_headers(token: Seq<char>) -> Seq<(Seq<char>, Seq<char>)> {
    seq![
        ("Authorization"@, "Bearer "@ + token),
        ("anthropic-version"@, "2023-06-01"@),
        ("anthropic-beta"@, "oauth-2025-04-20"@),
        ("Content-Type"@, "application/json"@),
    ]
}

/// The token is sent whole, behind `Bearer `, in the first of four headers; the other three do not
/// depend on it.
pub proof fn law_token_is_sent_whole(token: Seq<char>, other: Seq<char>)
    ensures
        request_headers(token).len() == 4,
        request_headers(token)[0].0 == "Authorization"@,
        request_headers(token)[0].1.len() == 7 + token.len(),
        request_headers(token)[0].1.take(7) == "Bearer "@,
        request_headers(token)[0].1.skip(7) == token,
        request_headers(token)[1] == ("anthropic-version"@, "2023-06-01"@),
        request_headers(token)[2] == ("anthropic-beta"@, "oauth-2025-04-20"@),
        request_headers(token)[3] == ("Content-Type"@, "application/json"@),
        token != other ==> request_headers(token) != request_headers(other),
{
    reveal_strlit("Bearer ");
    assert(request_headers(token)[0].1.take(7) =~= "Bearer "@);
    assert(request_headers(token)[0].1.skip(7) =~= token);
    assert(request_headers(other)[0].1.skip(7) =~= other);
}

/// The body asks the product's smallest model for one token, with a single message of a single
/// character.
pub proof fn law_body_asks_for_the_least(name: Seq<char>)
    ensures
        ({
            let members = body_members(name);
            &&& members.len() == 3
            &&& members[0].0 == "model"@
            &&& members[0].1 matches crate::json::FieldView::Text(model) && model.take(
                name.len() as int,
            ) == name && model.skip(name.len() as int) == "-haiku-4-5-20251001"@
            &&& members[1] == ("max_tokens"@, crate::json::FieldView::Number(1))
            &&& members[2].0 == "messages"@
            &&& members[2].1 matches crate::json::FieldView::Objects(messages) && messages.len()
                == 1 && messages[0] == seq![("role"@, "user"@), ("content"@, "."@)]
        }),
{
    let model = name + "-haiku-4-5-20251001"@;
    assert(model.take(name.len() as int) =~= name);
    assert(model.skip(name.len() as int) =~= "-haiku-4-5-20251001"@);
}

/// The message on a refused token names the command that fetches a new one, of the same product.
pub proof fn law_refused_token_names_the_command(name: Seq<char>)
    ensures
        expired_text(name).take(21) == "token expired — run: "@,
        expired_text(name).subrange(21, 21 + name.len() as int) == name,
        expired_text(name).skip(21 + name.len() as int) == "-rate-limit extract-token"@,
{
    reveal_strlit("token expired — run: ");
    assert(expired_text(name).take(21) =~= "token expired — run: "@);
    assert(expired_text(name).subrange(21, 21 + name.len() as int) =~= name);
    assert(expired_text(name).skip(21 + name.len() as int) =~= "-rate-limit extract-token"@);
}

/// The members of the request's body: the least that the smallest of the product's models answers.
pub open spec fn body_members(name: Seq<char>) -> Seq<(Seq<char>, crate::json::FieldView)> {
    seq![
        ("model"@, crate::json::FieldView::Text(name + "-haiku-4-5-20251001"@)),
        ("max_tokens"@, crate::json::FieldView::Number(1)),
        (
            "messages"@,
            crate::json::FieldView::Objects(seq![seq![("role"@, "user"@), ("content"@, "."@)]]),
        ),
    ]
}

/// The members of the request's body.
pub fn request_members(product: &Product) -> (r: Vec<(String, JsonField)>)
    ensures
        crate::json::field_views(r@) == body_members(product.name@),
{
    let mut model: String = product.name.clone();
    model.append("-haiku-4-5-20251001");
    let mut message: Vec<(String, String)> = Vec::new();
    message.push(("role".to_owned(), "user".to_owned()));
    message.push(("content".to_owned(), ".".to_owned()));
    let ghost pairs = crate::json::pair_texts(message@);
    assert(pairs =~= seq![("role"@, "user"@), ("content"@, "."@)]);
    let mut messages: Vec<Vec<(String, String)>> = Vec::new();
    messages.push(message);
    let list: JsonField = JsonField::Objects(messages);
    assert(list@->Objects_0 =~= seq![pairs]);
    let mut members: Vec<(String, JsonField)> = Vec::new();
    members.push(("model".to_owned(), JsonField::Text(model)));
    members.push(("max_tokens".to_owned(), JsonField::Number(1)));
    members.push(("messages".to_owned(), list));
    assert(crate::json::field_views(members@) =~= body_members(product.name@));
    members
}

/// The request that a token authorises.
pub fn fetch_request(product: &Product, token: &str) -> (r: ApiRequest)
    ensures
        r.url@ == "https://api.anthropic.com/v1/messages"@,
        crate::json::pair_texts(r.headers@) == request_headers(token@),
        r.body@ == crate::json::object_bytes(body_members(product.name@)),
{
    let mut bearer: String = "Bearer ".to_owned();
    bearer.append(token);
    let mut headers: Vec<(String, String)> = Vec::new();
    headers.push(("Authorization".to_owned(), bearer));
    headers.push(("anthropic-version".to_owned(), "2023-06-01".to_owned()));
    headers.push(("anthropic-beta".to_owned(), "oauth-2025-04-20".to_owned()));
    headers.push(("Content-Type".to_owned(), "application/json".to_owned()));
    ApiRequest {
        url: "https://api.anthropic.com/v1/messages".to_owned(),
        headers,
        body: write_object(request_members(product)),
    }
}

/// What a refused token is reported as.
pub open spec fn expired_text(name: Seq<char>) -> Seq<char> {
    "token expired — run: "@ + name + "-rate-limit extract-token"@
}

/// What a failed request is reported as: a refused token has a message of its own.
pub fn fetch_failure(product: &Product, status: Option<u16>, message: String) -> (r: String)
    ensures
        r@ == if status == Some(401u16) {
            expired_text(product.name@)
        } else {
            message@
        },
{
    match status {
        Some(401) => {
            let mut text: String = "token expired — run: ".to_owned();
            text.append(product.name.as_str());
            text.append("-rate-limit extract-token");
            text
        },
        _ => message,
    }
}

} // verus!
