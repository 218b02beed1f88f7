use vstd::prelude::*;
use vstd::string::StringExecFns;

verus! {

/// The character of a decimal digit.
pub open spec fn digit_char(d: nat) -> char {
    if d == 0 { '0' }
    else if d == 1 { '1' }
    else if d == 2 { '2' }
    else if d == 3 { '3' }
    else if d == 4 { '4' }
    else if d == 5 { '5' }
    else if d == 6 { '6' }
    else if d == 7 { '7' }
    else if d == 8 { '8' }
    else { '9' }
}

/// The decimal notation of `n`, without leading zeros.
pub open spec fn decimal(n: nat) -> Seq<char>
    decreases n,
{
    if n < 10 {
        seq![digit_char(n)]
    } else {
        decimal(n / 10).push(digit_char(n % 10))
    }
}

fn digit_str(d: u128) -> (r: &'static str)
    requires
        d < 10,
    ensures
        r@ == seq![digit_char(d as nat)],
{
    proof {
        reveal_strlit("0");
        reveal_strlit("1");
        reveal_strlit("2");
        reveal_strlit("3");
        reveal_strlit("4");
        reveal_strlit("5");
        reveal_strlit("6");
        reveal_strlit("7");
        reveal_strlit("8");
        reveal_strlit("9");
    }
    if d == 0 { "0" }
    else if d == 1 { "1" }
    else if d == 2 { "2" }
    else if d == 3 { "3" }
    else if d == 4 { "4" }
    else if d == 5 { "5" }
    else if d == 6 { "6" }
    else if d == 7 { "7" }
    else if d == 8 { "8" }
    else { "9" }
}

/// Writes `n` in decimal, as a 128-bit amount appears in a JSON payload.
pub fn decimal_string(n: u128) -> (r: String)
    ensures
        r@ == decimal(n as nat),
    decreases n,
{
    if n < 10 {
        String::from_str(digit_str(n))
    } else {
        let mut s = decimal_string(n / 10);
        s.append(digit_str(n % 10));
        s
    }
}

/// What the JSON serializer makes of a string: the quoted, escaped literal.
pub uninterp spec fn json_string_of(s: Seq<char>) -> Seq<char>;

/// Relies on cosmwasm_std::to_json_string on a `str`: the JSON literal of
/// the string. Serializing a `str` cannot fail (serde-json-wasm's
/// `serialize_str` returns `Ok` on every path).
#[verifier::external_body]
fn json_string(s: &str) -> (r: String)
    ensures
        r@ == json_string_of(s@),
{
    cosmwasm_std::to_json_string(s).unwrap()
}

/// The data a voucher authorizes: `sender` may take `amount` of `denom`
/// from campaign `campaign_id`, once, under `nonce`.
#[derive(Debug, PartialEq, Eq)]
pub struct SignedData {
    pub campaign_id: String,
    pub nonce: String,
    pub denom: String,
    pub amount: u128,
    pub sender: String,
}

pub ghost struct SignedDataModel {
    pub campaign_id: Seq<char>,
    pub nonce: Seq<char>,
    pub denom: Seq<char>,
    pub amount: u128,
    pub sender: Seq<char>,
}

impl View for SignedData {
    type V = SignedDataModel;

    open spec fn view(&self) -> SignedDataModel {
        SignedDataModel {
            campaign_id: self.campaign_id@,
            nonce: self.nonce@,
            denom: self.denom@,
            amount: self.amount,
            sender: self.sender@,
        }
    }
}

/// The canonical JSON object of a voucher: its fields in declaration order,
/// the amount as a decimal string.
pub open spec fn signed_data_json(d: SignedDataModel) -> Seq<char> {
    "{\"campaign_id\":"@ + json_string_of(d.campaign_id) + ",\"nonce\":"@ + json_string_of(
        d.nonce,
    ) + ",\"denom\":"@ + json_string_of(d.denom) + ",\"amount\":\""@ + decimal(d.amount as nat)
        + "\",\"sender\":"@ + json_string_of(d.sender) + "}"@
}

impl SignedData {
    /// The canonical JSON object of this voucher.
    pub fn canonical_json(&self) -> (r: String)
        ensures
            r@ == signed_data_json(self@),
    {
        let mut s = String::from_str("{\"campaign_id\":");
        s.append(json_string(self.campaign_id.as_str()).as_str());
        s.append(",\"nonce\":");
        s.append(json_string(self.nonce.as_str()).as_str());
        s.append(",\"denom\":");
        s.append(json_string(self.denom.as_str()).as_str());
        s.append(",\"amount\":\"");
        s.append(decimal_string(self.amount).as_str());
        s.append("\",\"sender\":");
        s.append(json_string(self.sender.as_str()).as_str());
        s.append("}");
        s
    }
}

/// The sign-arbitrary-data document that an off-chain wallet signs: zero fee,
/// zero sequence, empty memo, one message carrying `data` and `signer`.
pub open spec fn amino_sign_doc(signer: Seq<char>, data: Seq<char>) -> Seq<char> {
    "{\"account_number\":\"0\",\"chain_id\":\"\",\"fee\":{\"amount\":[],\"gas\":\"0\"},\"memo\":\"\",\"msgs\":[{\"type\":\"sign/MsgSignData\",\"value\":{\"data\":\""@
        + data + "\",\"signer\":\""@ + signer + "\"}}],\"sequence\":\"0\"}"@
}

/// Builds the document that the holder of the trusted key signs.
pub fn generate_amino_transaction_string(signer: &str, data: &str) -> (r: String)
    ensures
        r@ == amino_sign_doc(signer@, data@),
{
    let mut s = String::from_str(
        "{\"account_number\":\"0\",\"chain_id\":\"\",\"fee\":{\"amount\":[],\"gas\":\"0\"},\"memo\":\"\",\"msgs\":[{\"type\":\"sign/MsgSignData\",\"value\":{\"data\":\"",
    );
    s.append(data);
    s.append("\",\"signer\":\"");
    s.append(signer);
    s.append("\"}}],\"sequence\":\"0\"}");
    s
}

} // verus!
