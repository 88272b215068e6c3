//! The content of an input message: text and images.

use vstd::prelude::*;

use crate::anthropic::types::{
    input_path, input_place, invalid, part_path, part_place, ErrorView, RequestError,
};
use crate::json::{array, as_text, items_view, lookup, no_fields, text, Fields, Json, JsonView};
use crate::rows::{all_ok, lemma_first_error, lemma_next, seen};
use crate::text::{join, join2, join3, joined, same, starts_with, texts};

verus! {

/// What stands before the data in a data URL of a media type.
pub open spec fn data_url_head(media_type: Seq<char>) -> Seq<char> {
    "data:"@ + media_type + ";base64,"@
}

/// The data of a base64 data URL of a media type: what follows its head, not empty.
pub open spec fn data_of(url: Seq<char>, media_type: Seq<char>) -> Option<Seq<char>> {
    let head = data_url_head(media_type);
    if head.is_prefix_of(url) && url.len() > head.len() {
        Some(url.skip(head.len() as int))
    } else {
        None
    }
}

/// The media type and the data of a base64 data URL of an image that is supported.
pub open spec fn data_url(url: Seq<char>) -> Option<(Seq<char>, Seq<char>)> {
    if data_of(url, "image/jpeg"@) is Some {
        Some(("image/jpeg"@, data_of(url, "image/jpeg"@)->0))
    } else if data_of(url, "image/png"@) is Some {
        Some(("image/png"@, data_of(url, "image/png"@)->0))
    } else if data_of(url, "image/gif"@) is Some {
        Some(("image/gif"@, data_of(url, "image/gif"@)->0))
    } else if data_of(url, "image/webp"@) is Some {
        Some(("image/webp"@, data_of(url, "image/webp"@)->0))
    } else {
        None
    }
}

/// A kind of content part that holds text.
pub open spec fn is_text_kind(kind: Seq<char>) -> bool {
    kind == "input_text"@ || kind == "output_text"@ || kind == "text"@
}

/// The block for a text.
pub open spec fn text_block(content: Seq<char>) -> JsonView {
    JsonView::Object(
        no_fields().push(("type"@, JsonView::Text("text"@))).push(
            ("text"@, JsonView::Text(content)),
        ),
    )
}

/// The block for an image.
pub open spec fn image_block(media_type: Seq<char>, data: Seq<char>) -> JsonView {
    let source = JsonView::Object(
        no_fields().push(("type"@, JsonView::Text("base64"@))).push(
            ("media_type"@, JsonView::Text(media_type)),
        ).push(("data"@, JsonView::Text(data))),
    );
    JsonView::Object(
        no_fields().push(("type"@, JsonView::Text("image"@))).push(("source"@, source)),
    )
}

/// What a part of a system message says, or what is wrong with it.
pub open spec fn system_part(part: JsonView, index: nat, at: nat) -> Result<Seq<char>, ErrorView> {
    match part {
        JsonView::Object(object) => {
            let kind = match as_text(lookup(object, "type"@)) {
                Some(kind) => kind,
                None => "text"@,
            };
            if !is_text_kind(kind) {
                Err(
                    invalid(
                        "system and developer messages only support text content"@,
                        part_path(index, at, ".type"@),
                    ),
                )
            } else {
                match as_text(lookup(object, "text"@)) {
                    Some(content) => Ok(content),
                    None => Err(invalid("text is required"@, part_path(index, at, ".text"@))),
                }
            }
        },
        _ => Err(invalid("system content parts must be objects"@, part_path(index, at, ""@))),
    }
}

/// The parts of a system message, each with what it says or what is wrong with it.
pub open spec fn system_parts(parts: Seq<JsonView>, index: nat) -> Seq<
    Result<Seq<char>, ErrorView>,
> {
    Seq::new(parts.len(), |i: int| system_part(parts[i], index, i as nat))
}

/// The text of a system message: a text that is not empty, or the lines of its parts.
pub open spec fn system_text(content: JsonView, index: nat) -> Result<Seq<char>, ErrorView> {
    let malformed = Err(
        invalid(
            "message content must be a string or content array"@,
            input_path(index, ".content"@),
        ),
    );
    match content {
        JsonView::Text(content) => if content.len() > 0 {
            Ok(content)
        } else {
            malformed
        },
        JsonView::Array(parts) => match all_ok(system_parts(parts, index)) {
            Err(error) => Err(error),
            Ok(lines) => if lines.len() == 0 {
                Err(
                    invalid("message content must not be empty"@, input_path(index, ".content"@)),
                )
            } else {
                Ok(joined(lines, "\n"@))
            },
        },
        _ => malformed,
    }
}

/// The block for a part of a message, or what is wrong with it.
pub open spec fn content_part(part: JsonView, role: Seq<char>, index: nat, at: nat) -> Result<
    JsonView,
    ErrorView,
> {
    match part {
        JsonView::Object(object) => match as_text(lookup(object, "type"@)) {
            None => Err(
                invalid("content part type is required"@, part_path(index, at, ".type"@)),
            ),
            Some(kind) => if is_text_kind(kind) {
                match as_text(lookup(object, "text"@)) {
                    Some(content) => Ok(text_block(content)),
                    None => Err(invalid("text is required"@, part_path(index, at, ".text"@))),
                }
            } else if kind == "input_image"@ {
                image_part(object, role, index, at)
            } else {
                Err(
                    invalid(
                        "Unsupported content part type: "@ + kind,
                        part_path(index, at, ".type"@),
                    ),
                )
            },
        },
        _ => Err(invalid("content parts must be objects"@, part_path(index, at, ""@))),
    }
}

/// The block for an image part of a message, or what is wrong with it.
pub open spec fn image_part(
    object: Seq<(Seq<char>, JsonView)>,
    role: Seq<char>,
    index: nat,
    at: nat,
) -> Result<JsonView, ErrorView> {
    if role != "user"@ {
        Err(invalid("input_image is only valid in user messages"@, part_path(index, at, ""@)))
    } else {
        match as_text(lookup(object, "image_url"@)) {
            None => Err(invalid("image_url is required"@, part_path(index, at, ".image_url"@))),
            Some(url) => match data_url(url) {
                Some((media_type, data)) => Ok(image_block(media_type, data)),
                None => Err(
                    invalid(
                        "input_image.image_url must be a supported base64 data URL"@,
                        part_path(index, at, ".image_url"@),
                    ),
                ),
            },
        }
    }
}

/// The parts of a message, each with its block or what is wrong with it.
pub open spec fn content_parts(parts: Seq<JsonView>, role: Seq<char>, index: nat) -> Seq<
    Result<JsonView, ErrorView>,
> {
    Seq::new(parts.len(), |i: int| content_part(parts[i], role, index, i as nat))
}

/// The content of a message: a text that is not empty as it is, parts as blocks.
pub open spec fn message_content(content: JsonView, role: Seq<char>, index: nat) -> Result<
    JsonView,
    ErrorView,
> {
    let nothing = Err(
        invalid("message content must not be empty"@, input_path(index, ".content"@)),
    );
    match content {
        JsonView::Text(content) => if content.len() > 0 {
            Ok(JsonView::Text(content))
        } else {
            nothing
        },
        JsonView::Array(parts) => if parts.len() == 0 {
            nothing
        } else {
            match all_ok(content_parts(parts, role, index)) {
                Err(error) => Err(error),
                Ok(blocks) => Ok(JsonView::Array(blocks)),
            }
        },
        _ => Err(
            invalid(
                "message content must be a string or content array"@,
                input_path(index, ".content"@),
            ),
        ),
    }
}

/// No two media types claim the same URL: whatever stands between the head and the data
/// of a supported URL is its media type, and what follows is its data.
pub proof fn law_data_url_is_read_back(media_type: Seq<char>, data: Seq<char>)
    requires
        media_type == "image/jpeg"@ || media_type == "image/png"@ || media_type == "image/gif"@
            || media_type == "image/webp"@,
        data.len() > 0,
    ensures
        data_url("data:"@ + media_type + ";base64,"@ + data) == Some((media_type, data)),
{
    reveal_strlit("data:");
    reveal_strlit(";base64,");
    reveal_strlit("image/jpeg");
    reveal_strlit("image/png");
    reveal_strlit("image/gif");
    reveal_strlit("image/webp");
    let url = "data:"@ + media_type + ";base64,"@ + data;
    let head = data_url_head(media_type);
    assert(url.skip(head.len() as int) =~= data);
    assert(head.is_prefix_of(url));
    // The seventh character of the media type tells the four apart.
    assert(url[11] == media_type[6]);
    assert(url[12] == media_type[7]);
    assert(data_url_head("image/jpeg"@)[11] == 'j');
    assert(data_url_head("image/png"@)[11] == 'p');
    assert(data_url_head("image/gif"@)[11] == 'g');
    assert(data_url_head("image/webp"@)[11] == 'w');
}

/// The data of a base64 data URL of a media type.
fn data_with<'a>(url: &'a str, media_type: &str) -> (r: Option<&'a str>)
    ensures
        match data_of(url@, media_type@) {
            Some(data) => r matches Some(found) && found@ == data,
            None => r is None,
        },
{
    let head = join3("data:", media_type, ";base64,");
    let from = head.as_str().unicode_len();
    let to = url.unicode_len();
    if starts_with(url, head.as_str()) && to > from {
        assert(url@.subrange(from as int, to as int) =~= url@.skip(from as int));
        Some(url.substring_char(from, to))
    } else {
        None
    }
}

/// The media type and the data of a base64 data URL of an image that is supported.
pub fn parse_data_url(url: &str) -> (r: Option<(String, String)>)
    ensures
        match data_url(url@) {
            Some((media_type, data)) => r matches Some(found) && found.0@ == media_type
                && found.1@ == data,
            None => r is None,
        },
{
    if let Some(data) = data_with(url, "image/jpeg") {
        return Some(("image/jpeg".to_owned(), data.to_owned()));
    }
    if let Some(data) = data_with(url, "image/png") {
        return Some(("image/png".to_owned(), data.to_owned()));
    }
    if let Some(data) = data_with(url, "image/gif") {
        return Some(("image/gif".to_owned(), data.to_owned()));
    }
    if let Some(data) = data_with(url, "image/webp") {
        return Some(("image/webp".to_owned(), data.to_owned()));
    }
    None
}

/// Whether a kind of content part holds text.
fn text_kind(kind: &str) -> (r: bool)
    ensures
        r == is_text_kind(kind@),
{
    same(kind, "input_text") || same(kind, "output_text") || same(kind, "text")
}

/// The block for a text.
pub fn make_text_block(content: &str) -> (r: Json)
    ensures
        r@ == text_block(content@),
{
    Fields::new().with("type", text("text")).with("text", text(content)).into_object()
}

/// The block for an image.
fn make_image_block(media_type: &str, data: &str) -> (r: Json)
    ensures
        r@ == image_block(media_type@, data@),
{
    let source = Fields::new().with("type", text("base64")).with("media_type", text(media_type)).with(
        "data",
        text(data),
    ).into_object();
    Fields::new().with("type", text("image")).with("source", source).into_object()
}

/// What a part of a system message says, or what is wrong with it.
fn map_system_part(part: &Json, index: usize, at: usize) -> (r: Result<String, RequestError>)
    ensures
        seen(r) == system_part(part@, index as nat, at as nat),
{
    let object = match part.as_object() {
        Some(object) => object,
        None => {
            return Err(
                RequestError::new(
                    "system content parts must be objects",
                    part_place(index, at, "").as_str(),
                ),
            );
        },
    };
    let kind = match object.get_text("type") {
        Some(kind) => kind,
        None => "text",
    };
    if !text_kind(kind) {
        return Err(
            RequestError::new(
                "system and developer messages only support text content",
                part_place(index, at, ".type").as_str(),
            ),
        );
    }
    match object.get_text("text") {
        Some(content) => Ok(content.to_owned()),
        None => Err(
            RequestError::new("text is required", part_place(index, at, ".text").as_str()),
        ),
    }
}

/// The text of a system message.
pub fn content_to_system_text(content: &Json, index: usize) -> (r: Result<String, RequestError>)
    ensures
        seen(r) == system_text(content@, index as nat),
{
    if let Some(content) = content.as_str() {
        if !content.is_empty() {
            return Ok(content.to_owned());
        }
    }
    let parts = match content.as_array() {
        Some(parts) => parts,
        None => {
            return Err(
                RequestError::new(
                    "message content must be a string or content array",
                    input_place(index, ".content").as_str(),
                ),
            );
        },
    };
    let ghost results = system_parts(items_view(parts@), index as nat);
    let mut lines: Vec<String> = Vec::new();
    assert(results.take(0) =~= Seq::empty());
    assert(texts(lines@) =~= Seq::<Seq<char>>::empty());
    for at in 0..parts.len()
        invariant
            results == system_parts(items_view(parts@), index as nat),
            content@ == JsonView::Array(items_view(parts@)),
            all_ok(results.take(at as int)) == Ok::<Seq<Seq<char>>, ErrorView>(texts(lines@)),
    {
        proof {
            lemma_next(results, at as int);
        }
        match map_system_part(&parts[at], index, at) {
            Ok(line) => {
                let ghost before = lines@;
                lines.push(line);
                assert(texts(lines@) =~= texts(before).push(line@));
            },
            Err(error) => {
                proof {
                    lemma_first_error(results, at + 1);
                }
                return Err(error);
            },
        }
    }
    assert(results.take(results.len() as int) =~= results);
    if lines.len() == 0 {
        Err(
            RequestError::new(
                "message content must not be empty",
                input_place(index, ".content").as_str(),
            ),
        )
    } else {
        Ok(join(&lines, "\n"))
    }
}

/// The block for an image part of a message, or what is wrong with it.
fn map_image_part(object: &Fields, role: &str, index: usize, at: usize) -> (r: Result<
    Json,
    RequestError,
>)
    ensures
        seen(r) == image_part(object@, role@, index as nat, at as nat),
{
    if !same(role, "user") {
        return Err(
            RequestError::new(
                "input_image is only valid in user messages",
                part_place(index, at, "").as_str(),
            ),
        );
    }
    let url = match object.get_text("image_url") {
        Some(url) => url,
        None => {
            return Err(
                RequestError::new(
                    "image_url is required",
                    part_place(index, at, ".image_url").as_str(),
                ),
            );
        },
    };
    match parse_data_url(url) {
        Some((media_type, data)) => Ok(make_image_block(media_type.as_str(), data.as_str())),
        None => Err(
            RequestError::new(
                "input_image.image_url must be a supported base64 data URL",
                part_place(index, at, ".image_url").as_str(),
            ),
        ),
    }
}

/// The block for a part of a message, or what is wrong with it.
fn map_content_part(part: &Json, role: &str, index: usize, at: usize) -> (r: Result<
    Json,
    RequestError,
>)
    ensures
        seen(r) == content_part(part@, role@, index as nat, at as nat),
{
    let object = match part.as_object() {
        Some(object) => object,
        None => {
            return Err(
                RequestError::new(
                    "content parts must be objects",
                    part_place(index, at, "").as_str(),
                ),
            );
        },
    };
    let kind = match object.get_text("type") {
        Some(kind) => kind,
        None => {
            return Err(
                RequestError::new(
                    "content part type is required",
                    part_place(index, at, ".type").as_str(),
                ),
            );
        },
    };
    if text_kind(kind) {
        match object.get_text("text") {
            Some(content) => Ok(make_text_block(content)),
            None => Err(
                RequestError::new("text is required", part_place(index, at, ".text").as_str()),
            ),
        }
    } else if same(kind, "input_image") {
        map_image_part(object, role, index, at)
    } else {
        Err(
            RequestError::new(
                join2("Unsupported content part type: ", kind).as_str(),
                part_place(index, at, ".type").as_str(),
            ),
        )
    }
}

/// The content of a message: a text that is not empty as it is, parts as blocks.
pub fn map_message_content(content: &Json, role: &str, index: usize) -> (r: Result<
    Json,
    RequestError,
>)
    ensures
        seen(r) == message_content(content@, role@, index as nat),
{
    if let Some(content) = content.as_str() {
        if content.is_empty() {
            return Err(
                RequestError::new(
                    "message content must not be empty",
                    input_place(index, ".content").as_str(),
                ),
            );
        }
        return Ok(text(content));
    }
    let parts = match content.as_array() {
        Some(parts) => parts,
        None => {
            return Err(
                RequestError::new(
                    "message content must be a string or content array",
                    input_place(index, ".content").as_str(),
                ),
            );
        },
    };
    if parts.len() == 0 {
        return Err(
            RequestError::new(
                "message content must not be empty",
                input_place(index, ".content").as_str(),
            ),
        );
    }
    let ghost results = content_parts(items_view(parts@), role@, index as nat);
    let mut blocks: Vec<Json> = Vec::new();
    assert(results.take(0) =~= Seq::empty());
    assert(items_view(blocks@) =~= Seq::<JsonView>::empty());
    for at in 0..parts.len()
        invariant
            results == content_parts(items_view(parts@), role@, index as nat),
            content@ == JsonView::Array(items_view(parts@)),
            parts@.len() > 0,
            all_ok(results.take(at as int)) == Ok::<Seq<JsonView>, ErrorView>(items_view(blocks@)),
    {
        proof {
            lemma_next(results, at as int);
        }
        match map_content_part(&parts[at], role, index, at) {
            Ok(block) => {
                let ghost before = blocks@;
                blocks.push(block);
                assert(items_view(blocks@) =~= items_view(before).push(block@));
            },
            Err(error) => {
                proof {
                    lemma_first_error(results, at + 1);
                }
                return Err(error);
            },
        }
    }
    assert(results.take(results.len() as int) =~= results);
    Ok(array(blocks))
}

} // verus!
