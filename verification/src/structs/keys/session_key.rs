use vstd::prelude::*;

verus! {

/// The shared secret that X3DH establishes between a sender and a receiver.
pub struct SessionKey {
    bytes: [u8; 32],
    sender: String,
    receiver: String,
}

impl SessionKey {
    /// The 32 secret bytes.
    pub closed spec fn spec_bytes(&self) -> Seq<u8> {
        self.bytes@
    }

    /// The sender's name or id.
    pub closed spec fn spec_sender(&self) -> Seq<char> {
        self.sender@
    }

    /// The receiver's name or id.
    pub closed spec fn spec_receiver(&self) -> Seq<char> {
        self.receiver@
    }

    pub fn new(bytes: [u8; 32], sender: String, receiver: String) -> (key: Self)
        ensures
            key.spec_bytes() == bytes@,
            key.spec_sender() == sender@,
            key.spec_receiver() == receiver@,
    {
        SessionKey { bytes, sender, receiver }
    }

    pub fn get_bytes(&self) -> (bytes: [u8; 32])
        ensures
            bytes@ == self.spec_bytes(),
    {
        self.bytes
    }

    pub fn sender(&self) -> (sender: &str)
        ensures
            sender@ == self.spec_sender(),
    {
        self.sender.as_str()
    }

    pub fn receiver(&self) -> (receiver: &str)
        ensures
            receiver@ == self.spec_receiver(),
    {
        self.receiver.as_str()
    }
}

} // verus!
