//! Downloading and reading a subscription, and what the selectors are told.
use vstd::prelude::*;
use vstd::utf8::encode_utf8;

use crate::failure::{no_address, refused, Cause, CauseText, Failure, FailureText};
use crate::harden::selection_texts;
use crate::ipv4::{address_of, parse_ipv4, Ipv4Address};
use crate::json::{
    array_value, json_bytes, json_members, json_trees, object_value, text_value, value_to_bytes,
    JsonTree,
};
use crate::text::{trim, trimmed};
use crate::url_check::{breaks_curl_config, fits_curl_config};
use crate::yaml::{parse_yaml, well_formed, yaml_parse, Yaml};

verus! {

/// The curl configuration that downloads a subscription.
pub open spec fn curl_config(url: Seq<char>) -> Seq<char> {
    "url = \""@ + url
        + "\"\nproto = \"=https\"\nproto-redir = \"=https\"\nretry = 3\nretry-all-errors\nretry-delay = 1\nfail\nsilent\nshow-error\nlocation\nmax-time = 30\nmax-filesize = 16777216\n"@
}

/// The curl configuration that downloads a subscription: over HTTPS alone, even
/// where it is redirected, with retries, and within bounds of time and size.
pub fn subscription_curl_config(raw_url: &str) -> (r: String)
    ensures
        r@ == curl_config(raw_url@),
{
    "url = \"".to_owned().concat(raw_url).concat(
        "\"\nproto = \"=https\"\nproto-redir = \"=https\"\nretry = 3\nretry-all-errors\nretry-delay = 1\nfail\nsilent\nshow-error\nlocation\nmax-time = 30\nmax-filesize = 16777216\n",
    )
}

/// Reads the rest of a quoted value as curl does: up to the next double quote,
/// where a backslash makes something else of the character after it. Gives the
/// value and what follows the closing quote, or `None` where the line ends
/// first, or where there is a backslash.
pub open spec fn read_curl_value(text: Seq<char>) -> Option<(Seq<char>, Seq<char>)>
    decreases text.len(),
{
    if text.len() == 0 || text[0] == '\n' || text[0] == '\\' {
        None
    } else if text[0] == '"' {
        Some((seq![], text.skip(1)))
    } else {
        match read_curl_value(text.skip(1)) {
            Some((value, rest)) => Some((seq![text[0]] + value, rest)),
            None => None,
        }
    }
}

/// A URL that passed the check is requested as it is: behind the opening quote,
/// curl reads exactly the URL, and goes on behind the closing quote.
pub proof fn accepted_url_is_requested_whole(url: Seq<char>, rest: Seq<char>)
    requires
        fits_curl_config(url),
    ensures
        read_curl_value(url + seq!['"'] + rest) == Some((url, rest)),
    decreases url.len(),
{
    let text = url + seq!['"'] + rest;
    if url.len() == 0 {
        assert(text.skip(1) =~= rest);
        assert(url =~= seq![]);
    } else {
        assert(!breaks_curl_config(url[0]));
        assert forall|i: int| 0 <= i < url.skip(1).len() implies !breaks_curl_config(
            #[trigger] url.skip(1)[i],
        ) by {
            assert(!breaks_curl_config(url[i + 1]));
        }
        accepted_url_is_requested_whole(url.skip(1), rest);
        assert(text.skip(1) =~= url.skip(1) + seq!['"'] + rest);
        assert(seq![url[0]] + url.skip(1) =~= url);
    }
}

/// The failure to read a subscription, given what was downloaded; `None` where
/// it can be read.
pub open spec fn subscription_objection(output: Seq<char>) -> Option<FailureText> {
    if encode_utf8(output).len() > 16777216 {
        Some(refused("Subscription exceeds 16777216 bytes"@))
    } else if yaml_parse(output) is None {
        Some(
            FailureText { message: "Subscription is not valid YAML"@, cause: CauseText::Yaml },
        )
    } else {
        None
    }
}

/// Reads a subscription that was downloaded.
pub fn read_subscription(output: &str) -> (r: Result<Yaml, Failure>)
    ensures
        match r {
            Ok(doc) => {
                &&& subscription_objection(output@) is None
                &&& yaml_parse(output@) == Some(doc.tree())
                &&& well_formed(doc.tree())
            },
            Err(failure) => subscription_objection(output@) == Some(failure@),
        },
{
    if output.as_bytes().len() > 16777216 {
        return Err(Failure::refused("Subscription exceeds 16777216 bytes"));
    }
    match parse_yaml(output) {
        Ok(doc) => Ok(doc),
        Err(error) => Err(
            Failure {
                message: "Subscription is not valid YAML".to_owned(),
                cause: Cause::Yaml(error),
            },
        ),
    }
}

/// The address that some output is, without the white space around it.
pub open spec fn printed_address(output: Seq<char>) -> Option<Ipv4Address> {
    address_of(trimmed(output))
}

/// Reads an address that a command printed.
pub fn read_address(output: &str, message: &str) -> (r: Result<Ipv4Address, Failure>)
    ensures
        match r {
            Ok(address) => printed_address(output@) == Some(address),
            Err(failure) => printed_address(output@) is None && failure@ == no_address(message@),
        },
{
    match parse_ipv4(trim(output).as_str()) {
        Some(address) => Ok(address),
        None => Err(Failure::no_address(message)),
    }
}

/// One selection, as the selectors are told it.
pub open spec fn selection_tree(selection: (Seq<char>, Seq<char>)) -> JsonTree {
    JsonTree::Array(seq![JsonTree::Text(selection.0), JsonTree::Text(selection.1)])
}

/// What the selectors are told: the controller's secret, and each selector with
/// its node.
pub open spec fn payload_tree(
    secret: Seq<char>,
    selections: Seq<(Seq<char>, Seq<char>)>,
) -> JsonTree {
    JsonTree::Object(
        map![
            "secret"@ => JsonTree::Text(secret),
            "selections"@ => JsonTree::Array(
                Seq::new(selections.len(), |i: int| selection_tree(selections[i])),
            ),
        ],
    )
}

/// The failure to write what the selectors are told.
pub open spec fn unwritten_selectors() -> FailureText {
    FailureText { message: "Failed to encode Mihomo selector state"@, cause: CauseText::Json }
}

/// Writes what the selectors are told.
pub fn selector_payload(secret: &str, selections: &Vec<(String, String)>) -> (r: Result<
    Vec<u8>,
    Failure,
>)
    ensures
        match r {
            Ok(bytes) => json_bytes(
                payload_tree(secret@, selection_texts(selections@)),
            ) == Some(bytes@),
            Err(failure) => json_bytes(
                payload_tree(secret@, selection_texts(selections@)),
            ) is None && failure@ == unwritten_selectors(),
        },
{
    let ghost wanted = selection_texts(selections@);
    let ghost list = Seq::new(wanted.len(), |i: int| selection_tree(wanted[i]));
    let mut values: Vec<serde_json::Value> = Vec::new();
    for i in 0..selections.len()
        invariant
            wanted == selection_texts(selections@),
            list == Seq::new(wanted.len(), |i: int| selection_tree(wanted[i])),
            json_trees(values@) == list.take(i as int),
    {
        let ghost before = json_trees(values@);
        let mut pair: Vec<serde_json::Value> = Vec::new();
        pair.push(text_value(selections[i].0.clone()));
        pair.push(text_value(selections[i].1.clone()));
        proof {
            assert(json_trees(pair@) =~= seq![
                JsonTree::Text(wanted[i as int].0),
                JsonTree::Text(wanted[i as int].1),
            ]);
        }
        values.push(array_value(pair));
        proof {
            assert(json_trees(values@) =~= before.push(list[i as int]));
            assert(json_trees(values@) =~= list.take(i + 1));
        }
    }
    proof {
        assert(list.take(list.len() as int) == list);
    }
    let mut pairs: Vec<(String, serde_json::Value)> = Vec::new();
    pairs.push(("secret".to_owned(), text_value(secret.to_owned())));
    pairs.push(("selections".to_owned(), array_value(values)));
    proof {
        let first = pairs@.drop_last();
        assert(first.drop_last() =~= seq![]);
        assert(json_members(first.drop_last()) == Map::<Seq<char>, JsonTree>::empty());
        assert(json_members(first) == Map::<Seq<char>, JsonTree>::empty().insert(
            "secret"@,
            JsonTree::Text(secret@),
        ));
        assert(JsonTree::Object(json_members(pairs@)) == payload_tree(secret@, wanted));
    }
    match value_to_bytes(&object_value(pairs)) {
        Ok(bytes) => Ok(bytes),
        Err(error) => Err(
            Failure {
                message: "Failed to encode Mihomo selector state".to_owned(),
                cause: Cause::Json(error),
            },
        ),
    }
}

} // verus!
