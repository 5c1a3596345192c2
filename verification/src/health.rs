//! The lifecycle health state a peer reports, and its two serialized forms:
//! a compact binary one for collectors and a human-readable one for
//! administrators. Both layouts are stable: new states may only be appended.

use vstd::prelude::*;

verus! {

/// `Health` enumerates the lifecycle states of a peer. The surrounding
/// lifecycle sets the value; this crate only defines and serializes it.
#[derive(Copy, Clone, Debug, PartialEq, Eq, Structural)]
pub enum Health {
    /// The peer has finished its initial setup.
    Healthy,
    /// The peer has completed bootstrapping.
    Ready,
}

/// The compact binary form of a health value: a single tag byte holding the
/// variant's position.
pub open spec fn health_wire_bytes(h: Health) -> Seq<u8> {
    match h {
        Health::Healthy => seq![0u8],
        Health::Ready => seq![1u8],
    }
}

/// What decoding a compact binary form yields: the variant whose tag byte
/// stands alone in the input, or nothing when the input is malformed.
pub open spec fn health_from_wire(bytes: Seq<u8>) -> Option<Health> {
    if bytes.len() == 1 && bytes[0] == 0 {
        Some(Health::Healthy)
    } else if bytes.len() == 1 && bytes[0] == 1 {
        Some(Health::Ready)
    } else {
        None
    }
}

/// The human-readable form of a health value: the variant's name.
pub open spec fn health_text(h: Health) -> Seq<char> {
    match h {
        Health::Healthy => "Healthy"@,
        Health::Ready => "Ready"@,
    }
}

/// What decoding a human-readable form yields: the variant whose name the
/// input spells exactly, or nothing.
pub open spec fn health_from_text(text: Seq<char>) -> Option<Health> {
    if text == "Healthy"@ {
        Some(Health::Healthy)
    } else if text == "Ready"@ {
        Some(Health::Ready)
    } else {
        None
    }
}

impl Health {
    /// Serializes the value into its compact binary form.
    pub fn encode_wire(&self) -> (r: Vec<u8>)
        ensures
            r@ == health_wire_bytes(*self),
    {
        match self {
            Health::Healthy => vec![0u8],
            Health::Ready => vec![1u8],
        }
    }

    /// Deserializes a compact binary form back into the health value it
    /// spells, rejecting any other input.
    pub fn decode_wire(bytes: &Vec<u8>) -> (r: Option<Health>)
        ensures
            r == health_from_wire(bytes@),
    {
        if bytes.len() == 1 {
            let tag = bytes[0];
            if tag == 0 {
                Some(Health::Healthy)
            } else if tag == 1 {
                Some(Health::Ready)
            } else {
                None
            }
        } else {
            None
        }
    }

    /// Serializes the value into its human-readable form.
    pub fn encode_text(&self) -> (r: String)
        ensures
            r@ == health_text(*self),
    {
        match self {
            Health::Healthy => "Healthy".to_owned(),
            Health::Ready => "Ready".to_owned(),
        }
    }

    /// Deserializes a human-readable form back into the health value it
    /// names, rejecting any other input.
    pub fn decode_text(text: &str) -> (r: Option<Health>)
        ensures
            r == health_from_text(text@),
    {
        let owned = text.to_owned();
        if owned == "Healthy".to_owned() {
            Some(Health::Healthy)
        } else if owned == "Ready".to_owned() {
            Some(Health::Ready)
        } else {
            None
        }
    }
}

/// Law: the compact binary form round-trips — decoding the encoding of any
/// health value yields that exact value back.
pub proof fn lemma_health_wire_round_trip(h: Health)
    ensures
        health_from_wire(health_wire_bytes(h)) == Some(h),
{
}

/// Law: the human-readable form round-trips — decoding the encoding of any
/// health value yields that exact value back.
pub proof fn lemma_health_text_round_trip(h: Health)
    ensures
        health_from_text(health_text(h)) == Some(h),
{
    reveal_strlit("Healthy");
    reveal_strlit("Ready");
    assert("Healthy"@.len() == 7);
    assert("Ready"@.len() == 5);
}

} // verus!
