//! The wire records: the subscription envelope sent on connect and the
//! market update read from inbound text.
use crate::error::StreamError;
use crate::json::{parse_document, quote, json_document_of, quoted, JsonField};
use vstd::prelude::*;
use vstd::string::StringExecFns;

verus! {

/// One decoded price update for a market outcome.
#[derive(Debug)]
pub struct MarketUpdate {
    /// Sent under the key `marketId`.
    pub market_id: String,
    pub price: serde_json::Number,
    pub outcome: String,
    pub timestamp: u64,
}

/// Credentials for an authenticated subscription.
#[derive(Debug, Clone)]
pub struct AuthPayload {
    /// Sent under the key `apiKey`.
    pub api_key: String,
    pub secret: String,
    pub passphrase: String,
}

/// The envelope that announces which markets the client follows.
#[derive(Debug, Clone)]
pub struct SubscriptionMessage {
    /// Left out of the wire text where absent.
    pub auth: Option<AuthPayload>,
    /// Sent under the key `type`.
    pub kind: String,
    /// Sent under the key `assets_ids`; left out where empty.
    pub assets_ids: Vec<String>,
    /// Left out where empty.
    pub markets: Vec<String>,
}

/// A member of a market update.
#[derive(Debug, Clone, Copy, PartialEq, Eq, Structural)]
pub enum Field {
    MarketId,
    Price,
    Outcome,
    Timestamp,
}

/// Why an inbound text is no market update.
#[derive(Debug)]
pub enum DecodeError {
    /// The text is no JSON document.
    Json(serde_json::Error),
    /// The document is not an object.
    NotAnObject,
    /// A member is missing.
    MissingField(Field),
    /// A member holds a value of the wrong type.
    WrongType(Field),
}

pub open spec fn strings(v: Seq<String>) -> Seq<Seq<char>> {
    v.map_values(|s: String| s@)
}

/// The literals of `items`, separated by commas.
pub open spec fn quoted_items(items: Seq<Seq<char>>) -> Seq<char>
    decreases items.len(),
{
    if items.len() == 0 {
        seq![]
    } else if items.len() == 1 {
        quoted(items[0])
    } else {
        quoted_items(items.drop_last()) + seq![','] + quoted(items.last())
    }
}

/// A JSON array of string literals.
pub open spec fn array_text(items: Seq<Seq<char>>) -> Seq<char> {
    seq!['['] + quoted_items(items) + seq![']']
}

/// The `auth` member and the comma after it, or nothing.
pub open spec fn auth_text(auth: Option<(Seq<char>, Seq<char>, Seq<char>)>) -> Seq<char> {
    match auth {
        None => seq![],
        Some((k, s, p)) => "\"auth\":{\"apiKey\":"@ + quoted(k) + ",\"secret\":"@ + quoted(s)
            + ",\"passphrase\":"@ + quoted(p) + "},"@,
    }
}

/// The `assets_ids` member after a comma, or nothing for no ids.
pub open spec fn assets_text(ids: Seq<Seq<char>>) -> Seq<char> {
    if ids.len() == 0 {
        seq![]
    } else {
        ",\"assets_ids\":"@ + array_text(ids)
    }
}

/// The `markets` member after a comma, or nothing for no markets.
pub open spec fn markets_text(markets: Seq<Seq<char>>) -> Seq<char> {
    if markets.len() == 0 {
        seq![]
    } else {
        ",\"markets\":"@ + array_text(markets)
    }
}

/// The wire text of an envelope: its members in the order `auth`, `type`,
/// `assets_ids`, `markets`, each absent one left out.
pub open spec fn envelope_text(
    auth: Option<(Seq<char>, Seq<char>, Seq<char>)>,
    kind: Seq<char>,
    ids: Seq<Seq<char>>,
    markets: Seq<Seq<char>>,
) -> Seq<char> {
    seq!['{'] + auth_text(auth) + "\"type\":"@ + quoted(kind) + assets_text(ids) + markets_text(
        markets,
    ) + seq!['}']
}

/// The envelope that subscribes to the market channel for `ids`.
pub open spec fn subscription_text(ids: Seq<Seq<char>>) -> Seq<char> {
    envelope_text(None, "market"@, ids, seq![])
}

impl AuthPayload {
    pub open spec fn model(&self) -> (Seq<char>, Seq<char>, Seq<char>) {
        (self.api_key@, self.secret@, self.passphrase@)
    }
}

impl SubscriptionMessage {
    /// The text that `to_json` writes.
    pub open spec fn wire_text(&self) -> Seq<char> {
        envelope_text(
            match self.auth {
                None => None,
                Some(a) => Some(a.model()),
            },
            self.kind@,
            strings(self.assets_ids@),
            strings(self.markets@),
        )
    }

    /// The envelope as one JSON text.
    pub fn to_json(&self) -> (r: Result<String, StreamError>)
        ensures
            r matches Ok(t) && t@ == self.wire_text(),
    {
        let mut out = String::from_str("{");
        match &self.auth {
            None => {},
            Some(a) => {
                out.append("\"auth\":{\"apiKey\":");
                if let Err(e) = append_quoted(&mut out, a.api_key.as_str()) {
                    return Err(StreamError::Json(e));
                }
                out.append(",\"secret\":");
                if let Err(e) = append_quoted(&mut out, a.secret.as_str()) {
                    return Err(StreamError::Json(e));
                }
                out.append(",\"passphrase\":");
                if let Err(e) = append_quoted(&mut out, a.passphrase.as_str()) {
                    return Err(StreamError::Json(e));
                }
                out.append("},");
            },
        }
        out.append("\"type\":");
        if let Err(e) = append_quoted(&mut out, self.kind.as_str()) {
            return Err(StreamError::Json(e));
        }
        if self.assets_ids.len() > 0 {
            out.append(",\"assets_ids\":");
            if let Err(e) = append_array(&mut out, &self.assets_ids) {
                return Err(StreamError::Json(e));
            }
        }
        if self.markets.len() > 0 {
            out.append(",\"markets\":");
            if let Err(e) = append_array(&mut out, &self.markets) {
                return Err(StreamError::Json(e));
            }
        }
        out.append("}");
        proof {
            reveal_strlit("{");
            reveal_strlit("}");
        }
        assert(out@ =~= self.wire_text());
        Ok(out)
    }
}

fn append_quoted(out: &mut String, s: &str) -> (r: Result<(), serde_json::Error>)
    ensures
        r is Ok,
        final(out)@ == old(out)@ + quoted(s@),
{
    let t = quote(s)?;
    out.append(t.as_str());
    Ok(())
}

fn append_array(out: &mut String, items: &Vec<String>) -> (r: Result<(), serde_json::Error>)
    ensures
        r is Ok,
        final(out)@ == old(out)@ + array_text(strings(items@)),
{
    let ghost start = out@;
    out.append("[");
    let mut i: usize = 0;
    while i < items.len()
        invariant
            i <= items.len(),
            out@ == start + "["@ + quoted_items(strings(items@).take(i as int)),
        decreases items.len() - i,
    {
        if i > 0 {
            out.append(",");
        }
        append_quoted(out, items[i].as_str())?;
        proof {
            reveal_strlit(",");
            let w = strings(items@);
            assert(w.take(i + 1).drop_last() =~= w.take(i as int));
            assert(w.take(i + 1).last() == items@[i as int]@);
        }
        i += 1;
    }
    out.append("]");
    proof {
        reveal_strlit("[");
        reveal_strlit("]");
        assert(strings(items@).take(items.len() as int) =~= strings(items@));
    }
    assert(out@ =~= start + array_text(strings(items@)));
    Ok(())
}

/// Builds the market-channel envelope for `asset_ids` and encodes it.
pub fn create_market_subscription(asset_ids: Vec<String>) -> (r: Result<String, StreamError>)
    ensures
        r matches Ok(t) && t@ == subscription_text(strings(asset_ids@)),
{
    let msg = SubscriptionMessage {
        auth: None,
        kind: String::from_str("market"),
        assets_ids: asset_ids,
        markets: Vec::new(),
    };
    proof {
        assert(strings(msg.markets@) =~= seq![]);
    }
    msg.to_json()
}

/// The value of the first member named `key`.
pub open spec fn lookup(fields: Seq<(String, JsonField)>, key: Seq<char>) -> Option<JsonField>
    decreases fields.len(),
{
    if fields.len() == 0 {
        None
    } else if fields[0].0@ == key {
        Some(fields[0].1)
    } else {
        lookup(fields.drop_first(), key)
    }
}

/// The update that the members of an object give, or the first member, in
/// the record's order, that is missing or of the wrong type.
pub open spec fn update_from_fields(f: Seq<(String, JsonField)>) -> Result<MarketUpdate, DecodeError> {
    match lookup(f, "marketId"@) {
        None => Err(DecodeError::MissingField(Field::MarketId)),
        Some(JsonField::Str(id)) => match lookup(f, "price"@) {
            None => Err(DecodeError::MissingField(Field::Price)),
            Some(JsonField::Number(_, price)) => match lookup(f, "outcome"@) {
                None => Err(DecodeError::MissingField(Field::Outcome)),
                Some(JsonField::Str(outcome)) => match lookup(f, "timestamp"@) {
                    None => Err(DecodeError::MissingField(Field::Timestamp)),
                    Some(JsonField::Number(Some(timestamp), _)) => Ok(
                        MarketUpdate { market_id: id, price, outcome, timestamp },
                    ),
                    Some(_) => Err(DecodeError::WrongType(Field::Timestamp)),
                },
                Some(_) => Err(DecodeError::WrongType(Field::Outcome)),
            },
            Some(_) => Err(DecodeError::WrongType(Field::Price)),
        },
        Some(_) => Err(DecodeError::WrongType(Field::MarketId)),
    }
}

/// What decoding `text` gives: a JSON error where it is no document, else
/// the update that its object gives.
pub open spec fn decode_result(text: Seq<char>, r: Result<MarketUpdate, DecodeError>) -> bool {
    match json_document_of(text) {
        None => r matches Err(DecodeError::Json(_)),
        Some(None) => r matches Err(DecodeError::NotAnObject),
        Some(Some(f)) => r == update_from_fields(f),
    }
}

/// `text` is a market update, and decodes to `u`.
pub open spec fn decodes_to(text: Seq<char>, u: MarketUpdate) -> bool {
    exists|f: Seq<(String, JsonField)>|
        json_document_of(text) == Some(Some(f)) && #[trigger] update_from_fields(f) == Ok::<
            MarketUpdate,
            DecodeError,
        >(u)
}

/// The value of the first member of `fields` named `key`.
pub fn find_field<'a>(fields: &'a Vec<(String, JsonField)>, key: &String) -> (r: Option<&'a JsonField>)
    ensures
        r == match lookup(fields@, key@) {
            None => None,
            Some(v) => Some(&v),
        },
{
    let mut i: usize = 0;
    assert(fields@.subrange(0, fields@.len() as int) =~= fields@);
    while i < fields.len()
        invariant
            i <= fields.len(),
            lookup(fields@, key@) == lookup(fields@.subrange(i as int, fields@.len() as int), key@),
        decreases fields.len() - i,
    {
        let ghost rest = fields@.subrange(i as int, fields@.len() as int);
        assert(rest.drop_first() =~= fields@.subrange(i + 1, fields@.len() as int));
        assert(rest[0] == fields@[i as int]);
        if fields[i].0 == *key {
            assert(lookup(rest, key@) == Some(fields@[i as int].1));
            return Some(&fields[i].1);
        }
        assert(lookup(rest, key@) == lookup(rest.drop_first(), key@));
        i += 1;
    }
    None
}

/// Reads a market update from the members of a JSON object.
pub fn market_update_from_fields(fields: &Vec<(String, JsonField)>) -> (r: Result<MarketUpdate, DecodeError>)
    ensures
        r == update_from_fields(fields@),
{
    let market_id = match find_field(fields, &String::from_str("marketId")) {
        None => return Err(DecodeError::MissingField(Field::MarketId)),
        Some(JsonField::Str(s)) => s.clone(),
        Some(_) => return Err(DecodeError::WrongType(Field::MarketId)),
    };
    let price = match find_field(fields, &String::from_str("price")) {
        None => return Err(DecodeError::MissingField(Field::Price)),
        Some(JsonField::Number(_, n)) => n.clone(),
        Some(_) => return Err(DecodeError::WrongType(Field::Price)),
    };
    let outcome = match find_field(fields, &String::from_str("outcome")) {
        None => return Err(DecodeError::MissingField(Field::Outcome)),
        Some(JsonField::Str(s)) => s.clone(),
        Some(_) => return Err(DecodeError::WrongType(Field::Outcome)),
    };
    let timestamp = match find_field(fields, &String::from_str("timestamp")) {
        None => return Err(DecodeError::MissingField(Field::Timestamp)),
        Some(JsonField::Number(Some(t), _)) => *t,
        Some(_) => return Err(DecodeError::WrongType(Field::Timestamp)),
    };
    Ok(MarketUpdate { market_id, price, outcome, timestamp })
}

/// Decodes one inbound text as a market update.
pub fn decode_market_update(text: &str) -> (r: Result<MarketUpdate, DecodeError>)
    ensures
        decode_result(text@, r),
{
    match parse_document(text) {
        Err(e) => Err(DecodeError::Json(e)),
        Ok(None) => Err(DecodeError::NotAnObject),
        Ok(Some(fields)) => market_update_from_fields(&fields),
    }
}

} // verus!
