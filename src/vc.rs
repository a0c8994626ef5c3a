use vstd::prelude::*;
use vstd::string::*;
use vstd::utf8::encode_utf8;

verus! {

/// A dynamic virtual channel that is opened under a name and takes whatever
/// the server sends on it.
#[derive(Debug)]
pub struct GenericChannel {
    name: String,
}

impl GenericChannel {
    pub closed spec fn name_view(&self) -> Seq<char> {
        self.name@
    }

    pub fn new(name: String) -> (r: Self)
        ensures
            r.name_view() == name@,
    {
        GenericChannel { name }
    }

    /// The name the channel is opened under.
    pub fn channel_name(&self) -> (r: &str)
        ensures
            r@ == self.name_view(),
    {
        self.name.as_str()
    }
}

/// A message sent on a generic channel: the payload's bytes, with no framing.
pub struct GenericChannelMessage {
    payload: String,
}

impl GenericChannelMessage {
    pub closed spec fn payload_view(&self) -> Seq<char> {
        self.payload@
    }

    pub fn from_string(payload: String) -> (r: Self)
        ensures
            r.payload_view() == payload@,
    {
        Self { payload }
    }

    /// The name of this kind of message.
    pub fn name(&self) -> (r: &'static str)
        ensures
            r@ == "GENERIC"@,
    {
        "GENERIC"
    }

    /// The encoded size: the payload's length in UTF-8 bytes.
    pub fn size(&self) -> (r: usize)
        ensures
            r == encode_utf8(self.payload_view()).len(),
    {
        self.payload.as_str().as_bytes().len()
    }

    /// The encoded message: the payload's UTF-8 bytes.
    pub fn encode(&self) -> (r: Vec<u8>)
        ensures
            r@ == encode_utf8(self.payload_view()),
    {
        self.payload.as_str().as_bytes_vec()
    }
}

} // verus!
