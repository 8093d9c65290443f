use vstd::prelude::*;
use vstd::string::StringExecFns;

verus! {

/// The JSON text of a string value: quotes around it, special characters escaped.
pub uninterp spec fn json_string_text(s: Seq<char>) -> Seq<char>;

/// Relies on serde_json::to_string on a `str`: it writes the string as a JSON
/// string literal. Its documentation names two causes of failure, a
/// `Serialize` impl that decides to fail and a map with non-string keys;
/// neither occurs for a `str`, so the error arm is never taken.
#[verifier::external_body]
fn quote_json(s: &str) -> (r: String)
    ensures
        r@ == json_string_text(s@),
{
    match serde_json::to_string(s) {
        Ok(q) => q,
        Err(_) => String::new(),
    }
}

/// The characters of each string of `v`.
pub open spec fn texts(v: Seq<String>) -> Seq<Seq<char>> {
    v.map_values(|s: String| s@)
}

pub open spec fn opt_texts(o: Option<Vec<String>>) -> Option<Seq<Seq<char>>> {
    match o {
        Some(v) => Some(texts(v@)),
        None => None,
    }
}

/// An image list that is absent or empty counts as no images at all.
pub open spec fn normalized_images(images: Option<Seq<Seq<char>>>) -> Option<Seq<Seq<char>>> {
    match images {
        Some(v) => if v.len() == 0 { None } else { Some(v) },
        None => None,
    }
}

pub open spec fn tags_url_text(host: Seq<char>) -> Seq<char> {
    host + "/api/tags"@
}

pub open spec fn generate_url_text(host: Seq<char>) -> Seq<char> {
    host + "/api/generate"@
}

/// The JSON strings of `items`, separated by commas.
pub open spec fn json_items_text(items: Seq<Seq<char>>) -> Seq<char>
    decreases items.len(),
{
    if items.len() == 0 {
        Seq::empty()
    } else if items.len() == 1 {
        json_string_text(items[0])
    } else {
        json_items_text(items.drop_last()) + ","@ + json_string_text(items.last())
    }
}

/// The JSON value of the `images` field: `null` when there are none.
pub open spec fn images_json_text(images: Option<Seq<Seq<char>>>) -> Seq<char> {
    match images {
        Some(v) => "["@ + json_items_text(v) + "]"@,
        None => "null"@,
    }
}

/// The body of a generation request: model, prompt, streaming switched off,
/// and the images, which are `null` when the list is absent or empty.
pub open spec fn generate_body_text(
    model: Seq<char>,
    prompt: Seq<char>,
    images: Option<Seq<Seq<char>>>,
) -> Seq<char> {
    "{\"model\":"@ + json_string_text(model) + ",\"prompt\":"@ + json_string_text(prompt)
        + ",\"stream\":false,\"images\":"@ + images_json_text(normalized_images(images)) + "}"@
}

/// An empty image list is sent exactly as an absent one: as `null`, never
/// as an empty array.
pub proof fn lemma_empty_images_sent_as_null(model: Seq<char>, prompt: Seq<char>)
    ensures
        generate_body_text(model, prompt, Some(Seq::empty())) == generate_body_text(
            model,
            prompt,
            None,
        ),
        images_json_text(normalized_images(Some(Seq::<Seq<char>>::empty()))) == "null"@,
{
}

/// The address of the model catalog on `host`.
pub fn tags_url(host: &str) -> (r: String)
    ensures
        r@ == tags_url_text(host@),
{
    let mut r = String::from_str(host);
    r.append("/api/tags");
    r
}

/// The address of the generation endpoint on `host`.
pub fn generate_url(host: &str) -> (r: String)
    ensures
        r@ == generate_url_text(host@),
{
    let mut r = String::from_str(host);
    r.append("/api/generate");
    r
}

/// Drops an empty image list, so that it is sent as no images.
pub fn normalize_images(images: Option<Vec<String>>) -> (r: Option<Vec<String>>)
    ensures
        opt_texts(r) == normalized_images(opt_texts(images)),
{
    match images {
        Some(v) => if v.len() == 0 { None } else { Some(v) },
        None => None,
    }
}

/// The JSON array of the strings of `images`.
fn json_array(images: &Vec<String>) -> (r: String)
    ensures
        r@ == "["@ + json_items_text(texts(images@)) + "]"@,
{
    let mut r = String::from_str("[");
    let mut i: usize = 0;
    while i < images.len()
        invariant
            i <= images.len(),
            r@ == "["@ + json_items_text(texts(images@.subrange(0, i as int))),
        decreases images.len() - i,
    {
        if i > 0 {
            r.append(",");
        }
        let q = quote_json(images[i].as_str());
        r.append(q.as_str());
        proof {
            let pre = images@.subrange(0, i as int);
            let next = images@.subrange(0, i + 1);
            assert(next.drop_last() =~= pre);
            assert(texts(next).drop_last() =~= texts(pre));
            assert(texts(next).last() == images@[i as int]@);
            if i == 0 {
                assert(texts(pre) =~= Seq::<Seq<char>>::empty());
            }
        }
        i = i + 1;
    }
    assert(images@.subrange(0, images.len() as int) =~= images@);
    r.append("]");
    r
}

/// The JSON body of a generation request for `model` and `prompt`, with
/// `images` sent as `null` when the list is absent or empty.
pub fn generate_body(model: &str, prompt: &str, images: &Option<Vec<String>>) -> (r: String)
    ensures
        r@ == generate_body_text(model@, prompt@, opt_texts(*images)),
{
    let mut r = String::from_str("{\"model\":");
    let qm = quote_json(model);
    r.append(qm.as_str());
    r.append(",\"prompt\":");
    let qp = quote_json(prompt);
    r.append(qp.as_str());
    r.append(",\"stream\":false,\"images\":");
    match images {
        Some(v) => {
            if v.len() == 0 {
                r.append("null");
            } else {
                let a = json_array(v);
                r.append(a.as_str());
            }
        },
        None => {
            r.append("null");
        },
    }
    r.append("}");
    r
}

} // verus!
