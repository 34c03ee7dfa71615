use vstd::prelude::*;
use vstd::string::StringExecFns;

verus! {

/// The descriptive name of a credential: a fixed prefix followed by the
/// caller's opaque content identifier.
pub open spec fn cert_name_spec(cid: Seq<char>) -> Seq<char> {
    "Soulbound Cert "@ + cid
}

/// The fixed short code of every credential.
pub open spec fn cert_symbol_spec() -> Seq<char> {
    "SBT"@
}

/// The content location of a credential: a fixed gateway base followed by
/// the same content identifier, used verbatim and unvalidated.
pub open spec fn cert_uri_spec(cid: Seq<char>) -> Seq<char> {
    "https://gateway.pinata.cloud/ipfs/"@ + cid
}

/// Builds the metadata name for a content identifier.
pub fn cert_name(cid: &str) -> (r: String)
    ensures
        r@ == cert_name_spec(cid@),
{
    let mut s = "Soulbound Cert ".to_owned();
    s.append(cid);
    s
}

/// Builds the metadata symbol.
pub fn cert_symbol() -> (r: String)
    ensures
        r@ == cert_symbol_spec(),
{
    "SBT".to_owned()
}

/// Builds the metadata content location for a content identifier.
pub fn cert_uri(cid: &str) -> (r: String)
    ensures
        r@ == cert_uri_spec(cid@),
{
    let mut s = "https://gateway.pinata.cloud/ipfs/".to_owned();
    s.append(cid);
    s
}

} // verus!
