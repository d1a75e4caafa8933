use vstd::prelude::*;

verus! {

/// The bytes of the message currently being received on one session.
#[derive(Clone)]
pub struct MessageBuffer {
    bytes: Vec<u8>,
}

impl View for MessageBuffer {
    type V = Seq<u8>;

    closed spec fn view(&self) -> Seq<u8> {
        self.bytes@
    }
}

impl MessageBuffer {
    /// An empty buffer.
    pub fn new() -> (r: MessageBuffer)
        ensures
            r@ == Seq::<u8>::empty(),
    {
        MessageBuffer { bytes: Vec::new() }
    }

    /// Starts a new message: whatever an earlier one left is dropped.
    pub fn start(&mut self)
        ensures
            final(self)@ == Seq::<u8>::empty(),
    {
        self.bytes.clear();
    }

    /// Appends the next chunk of the message.
    pub fn append(&mut self, chunk: &[u8])
        ensures
            final(self)@ == old(self)@ + chunk@,
    {
        self.bytes.extend_from_slice(chunk);
    }

    /// The bytes received since the message started.
    pub fn contents(&self) -> (r: &[u8])
        ensures
            r@ == self@,
    {
        self.bytes.as_slice()
    }
}

} // verus!
