//! The records shown in the dashboard. Each carries a stable textual identifier.

use crate::decimal::{decimal, i32_to_decimal};
use vstd::prelude::*;
use vstd::string::StringExecFns;

verus! {

/// A record with a stable identifier.
pub trait Identifiable {
    /// The identifier, as a sequence of characters.
    spec fn spec_id(&self) -> Seq<char>;

    /// The identifier.
    fn id(&self) -> (id: &str)
        ensures
            id@ == self.spec_id(),
    ;
}

/// A bare name that is its own identifier.
#[derive(Debug)]
pub struct IdentifiableString(pub String);

impl Clone for IdentifiableString {
    fn clone(&self) -> (copy: Self)
        ensures
            copy == *self,
    {
        IdentifiableString(self.0.clone())
    }
}

impl Identifiable for IdentifiableString {
    open spec fn spec_id(&self) -> Seq<char> {
        self.0@
    }

    fn id(&self) -> (id: &str) {
        self.0.as_str()
    }
}

/// A peer node: where it is reached, the gas held on it and, if known, its reputation proof.
#[derive(Debug)]
pub struct Peer {
    pub id: String,
    pub uri: String,
    pub gas: String,
    pub rpi: Option<String>,
}

impl Identifiable for Peer {
    open spec fn spec_id(&self) -> Seq<char> {
        self.id@
    }

    fn id(&self) -> (id: &str) {
        self.id.as_str()
    }
}

/// The address a peer is reached at: its host, a colon and its port in decimal.
pub open spec fn spec_peer_uri(ip: Seq<char>, port: u16) -> Seq<char> {
    ip + seq![':'] + decimal(port as int)
}

/// The address a peer is reached at: its host, a colon and its port in decimal.
pub fn peer_uri(ip: &str, port: u16) -> (uri: String)
    ensures
        uri@ == spec_peer_uri(ip@, port),
{
    let mut uri: String = ip.to_owned();
    uri.push(':');
    uri.append(i32_to_decimal(port as i32).as_str());
    uri
}

/// A service held in the registry, with the tag its metadata gives it.
#[derive(Debug)]
pub struct Service {
    pub id: String,
    pub tag: String,
}

impl Identifiable for Service {
    open spec fn spec_id(&self) -> Seq<char> {
        self.id@
    }

    fn id(&self) -> (id: &str) {
        self.id.as_str()
    }
}

/// A client of the node and the gas it holds.
#[derive(Debug)]
pub struct Client {
    pub id: String,
    pub gas: String,
}

impl Identifiable for Client {
    open spec fn spec_id(&self) -> Seq<char> {
        self.id@
    }

    fn id(&self) -> (id: &str) {
        self.id.as_str()
    }
}

/// A running instance of a service.
#[derive(Debug)]
pub struct Container {
    pub id: String,
    pub ip: String,
    pub gas: String,
}

impl Identifiable for Container {
    open spec fn spec_id(&self) -> Seq<char> {
        self.id@
    }

    fn id(&self) -> (id: &str) {
        self.id.as_str()
    }
}

/// One variable of the node's environment file.
#[derive(Debug)]
pub struct Env {
    pub id: String,
    pub value: String,
    pub info: String,
    pub group: String,
}

impl Identifiable for Env {
    open spec fn spec_id(&self) -> Seq<char> {
        self.id@
    }

    fn id(&self) -> (id: &str) {
        self.id.as_str()
    }
}

/// A tunnel that exposes a service at a public address.
#[derive(Debug)]
pub struct Tunnel {
    pub id: String,
    pub uri: String,
    pub service: String,
    pub live: bool,
}

impl Identifiable for Tunnel {
    open spec fn spec_id(&self) -> Seq<char> {
        self.id@
    }

    fn id(&self) -> (id: &str) {
        self.id.as_str()
    }
}

/// The tag of a service that has no metadata.
pub const TAG_ANY: &'static str = "any";

/// The tag of a service whose metadata names no hashtag.
pub const TAG_NO_HASHTAG: &'static str = "No hashtag found in metadata";

/// The tag of a service whose hashtag holds no tags.
pub const TAG_NO_TAGS: &'static str = "No tags found in hashtag";

/// What looking for the metadata of a service gave.
#[derive(Debug)]
pub enum MetadataReading {
    /// There is no metadata for the service.
    Missing,
    /// The metadata could not be read or decoded; the text says why.
    Unreadable(String),
    /// The metadata was decoded; these are the tags of its hashtag, if it has a hashtag.
    Decoded(Option<Vec<String>>),
}

impl MetadataReading {
    /// The tag the service is listed with: `any` without metadata, the
    /// error where the metadata could not be read, else the first tag of
    /// the hashtag, or a note that there is no hashtag or no tag in it.
    pub open spec fn spec_tag(self) -> Seq<char> {
        match self {
            MetadataReading::Missing => TAG_ANY@,
            MetadataReading::Unreadable(error) => error@,
            MetadataReading::Decoded(None) => TAG_NO_HASHTAG@,
            MetadataReading::Decoded(Some(tags)) => if tags@.len() > 0 {
                tags@[0]@
            } else {
                TAG_NO_TAGS@
            },
        }
    }

    /// The tag the service is listed with.
    pub fn tag(self) -> (tag: String)
        ensures
            tag@ == self.spec_tag(),
    {
        match self {
            MetadataReading::Missing => TAG_ANY.to_owned(),
            MetadataReading::Unreadable(error) => error,
            MetadataReading::Decoded(None) => TAG_NO_HASHTAG.to_owned(),
            MetadataReading::Decoded(Some(tags)) => {
                if tags.len() > 0 {
                    tags[0].clone()
                } else {
                    TAG_NO_TAGS.to_owned()
                }
            },
        }
    }
}

impl Service {
    /// The service `id` as it is listed, given what looking for its metadata gave.
    pub fn from_reading(id: String, reading: MetadataReading) -> (service: Service)
        ensures
            service.id == id,
            service.tag@ == reading.spec_tag(),
    {
        Service { id, tag: reading.tag() }
    }
}

} // verus!
