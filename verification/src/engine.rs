use vstd::prelude::*;
use crate::error::BridgeError;
use crate::helpers::{readable, string_or_null, text_or_nil, transformed};
use crate::protocol::{protocol_term, protocol_to_nif, Protocol};
use crate::term::{field_views, put_field, Term, TermView};

verus! {

/// What the engine says of itself. Text fields are the engine's bytes,
/// absent where it has none.
#[derive(Debug, PartialEq, Eq)]
pub struct EngineInfo {
    pub protocol: Protocol,
    pub path: Option<Vec<u8>>,
    pub home_dir: Option<Vec<u8>>,
    pub version: Option<Vec<u8>>,
    pub required_version: Option<Vec<u8>>,
}

/// The record that an engine description becomes, if all its texts can be
/// read.
pub open spec fn engine_info_term(info: EngineInfo) -> Option<TermView> {
    if readable(info.path) && readable(info.home_dir) && readable(info.version) && readable(
        info.required_version,
    ) {
        Some(
            TermView::Record(
                "Elixir.ExGpgme.Engine.EngineInfo"@,
                seq![
                    ("protocol"@, protocol_term(info.protocol)),
                    ("path"@, text_or_nil(info.path)),
                    ("home_dir"@, text_or_nil(info.home_dir)),
                    ("version"@, text_or_nil(info.version)),
                    ("required_version"@, text_or_nil(info.required_version)),
                ],
            ),
        )
    } else {
        None
    }
}

/// Writes one text of an engine description as a host value: the host's
/// null where the engine has none, a decode failure where the bytes are not
/// valid UTF-8.
pub fn get_engine_info(value: &Option<Vec<u8>>) -> (r: Result<Term, BridgeError>)
    ensures
        transformed(
            r,
            if readable(*value) {
                Some(text_or_nil(*value))
            } else {
                None
            },
        ),
{
    string_or_null(value)
}

/// Writes an engine description as a host record. Fails as a whole if any
/// text of it is not valid UTF-8.
pub fn engine_info_to_term(engine_info: &EngineInfo) -> (r: Result<Term, BridgeError>)
    ensures
        transformed(r, engine_info_term(*engine_info)),
{
    let path = match get_engine_info(&engine_info.path) {
        Ok(term) => term,
        Err(_) => {
            return Err(BridgeError::DecodeFailure);
        },
    };
    let home_dir = match get_engine_info(&engine_info.home_dir) {
        Ok(term) => term,
        Err(_) => {
            return Err(BridgeError::DecodeFailure);
        },
    };
    let version = match get_engine_info(&engine_info.version) {
        Ok(term) => term,
        Err(_) => {
            return Err(BridgeError::DecodeFailure);
        },
    };
    let required_version = match get_engine_info(&engine_info.required_version) {
        Ok(term) => term,
        Err(_) => {
            return Err(BridgeError::DecodeFailure);
        },
    };
    let mut fields: Vec<(String, Term)> = Vec::new();
    assert(field_views(fields@) =~= Seq::empty());
    put_field(&mut fields, "protocol", protocol_to_nif(engine_info.protocol));
    put_field(&mut fields, "path", path);
    put_field(&mut fields, "home_dir", home_dir);
    put_field(&mut fields, "version", version);
    put_field(&mut fields, "required_version", required_version);
    assert(field_views(fields@) =~= engine_info_term(*engine_info)->Some_0->Record_1);
    Ok(Term::record("Elixir.ExGpgme.Engine.EngineInfo", fields))
}

} // verus!
