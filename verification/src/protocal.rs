use vstd::prelude::*;

verus! {

/// Bytes of a command from the panel to the sensor server.
pub const C2S_SIZE: usize = 5;

/// Bytes of a reply from the sensor server to the panel.
pub const S2C_SIZE: usize = 12;

/// Markers exchanged with the sensor server over the serial line.
#[derive(Debug, Clone, Copy, PartialEq, Eq, PartialOrd, Ord, Structural)]
pub enum Signal {
    /// Opens a connection; sent as the byte `0xf7`.
    Start,
    /// Asks for a reading, and acknowledges that one follows; sent as `0xf8`.
    Req,
}

impl Signal {
    /// The byte that stands for the marker on the line.
    pub open spec fn spec_code(self) -> u8 {
        match self {
            Signal::Start => 0xf7,
            Signal::Req => 0xf8,
        }
    }

    /// The marker that a character read from the line stands for, if any.
    pub open spec fn spec_from_char(c: i32) -> Option<Signal> {
        if c == 0xf7 {
            Some(Signal::Start)
        } else if c == 0xf8 {
            Some(Signal::Req)
        } else {
            None
        }
    }

    /// The byte that stands for the marker on the line.
    pub fn code(self) -> (b: u8)
        ensures
            b == self.spec_code(),
    {
        match self {
            Signal::Start => 0xf7,
            Signal::Req => 0xf8,
        }
    }

    /// The marker that a character read from the line (as `getchar`
    /// returns it) stands for; `None` for every other character.
    pub fn from_char(c: i32) -> (s: Option<Signal>)
        ensures
            s == Signal::spec_from_char(c),
    {
        if c == 0xf7 {
            Some(Signal::Start)
        } else if c == 0xf8 {
            Some(Signal::Req)
        } else {
            None
        }
    }
}

/// Every marker is read back as itself, and no other character is read
/// as that marker.
pub proof fn lemma_signal_round_trip(s: Signal, c: i32)
    ensures
        Signal::spec_from_char(s.spec_code() as i32) == Some(s),
        Signal::spec_from_char(c) == Some(s) ==> c == s.spec_code(),
{
}

/// One step of waiting for a marker: whether the character just read from
/// the line is `signal`, so that the waiting ends.
pub fn wait_signal(signal: Signal, received: i32) -> (done: bool)
    ensures
        done == (Signal::spec_from_char(received) == Some(signal)),
{
    match Signal::from_char(received) {
        Some(s) => match (s, signal) {
            (Signal::Start, Signal::Start) => true,
            (Signal::Req, Signal::Req) => true,
            _ => false,
        },
        None => false,
    }
}

/// What the panel does next in a reading exchange with the sensor server.
#[derive(Debug, Clone, Copy, PartialEq, Eq, Structural)]
pub enum ReadAction {
    /// Write the byte to the line.
    Send(u8),
    /// Read one character from the line.
    Receive,
    /// The reply is complete.
    Finish,
}

/// The state of one reading exchange: the panel writes a `Req` marker for
/// the request and one more for each byte of the command (the command's
/// own bytes are not transmitted), waits until the server answers with
/// `Req`, then takes the next `S2C_SIZE` characters, each cut to a byte,
/// as the reply.
pub struct ReadSession {
    sent: usize,
    acknowledged: bool,
    reply: Vec<u8>,
}

/// Markers the panel writes in one exchange.
pub open spec fn spec_markers_to_send() -> nat {
    (C2S_SIZE + 1) as nat
}

/// How a character read from the line changes whether the server has
/// acknowledged and the reply so far.
pub open spec fn spec_receive(acknowledged: bool, reply: Seq<u8>, c: i32) -> (bool, Seq<u8>) {
    if !acknowledged {
        (Signal::spec_from_char(c) == Some(Signal::Req), reply)
    } else {
        (true, reply.push(c as u8))
    }
}

/// The effect of reading the characters `cs` one after the other.
pub open spec fn spec_receive_all(acknowledged: bool, reply: Seq<u8>, cs: Seq<i32>) -> (bool, Seq<u8>)
    decreases cs.len(),
{
    if cs.len() == 0 {
        (acknowledged, reply)
    } else {
        let (a, r) = spec_receive(acknowledged, reply, cs[0]);
        spec_receive_all(a, r, cs.drop_first())
    }
}

/// The characters `cs`, each cut to a byte.
pub open spec fn spec_bytes_of(cs: Seq<i32>) -> Seq<u8> {
    cs.map_values(|c: i32| c as u8)
}

/// Once acknowledged, every character read is appended to the reply.
pub proof fn lemma_receive_after_ack(reply: Seq<u8>, cs: Seq<i32>)
    ensures
        spec_receive_all(true, reply, cs) == (true, reply + spec_bytes_of(cs)),
    decreases cs.len(),
{
    if cs.len() > 0 {
        lemma_receive_after_ack(reply.push(cs[0] as u8), cs.drop_first());
        assert(reply.push(cs[0] as u8) + spec_bytes_of(cs.drop_first()) =~= reply + spec_bytes_of(cs));
    } else {
        assert(reply + spec_bytes_of(cs) =~= reply);
    }
}

/// The reply of an exchange is made of the characters that follow the
/// server's first `Req` marker, each cut to a byte: everything the line
/// carried before that marker is passed over.
pub proof fn lemma_reply_follows_first_ack(cs: Seq<i32>, k: int)
    requires
        0 <= k < cs.len(),
        Signal::spec_from_char(cs[k]) == Some(Signal::Req),
        forall|j: int| 0 <= j < k ==> Signal::spec_from_char(#[trigger] cs[j]) != Some(Signal::Req),
    ensures
        spec_receive_all(false, Seq::empty(), cs) == (true, spec_bytes_of(cs.subrange(k + 1, cs.len() as int))),
    decreases k,
{
    if k == 0 {
        lemma_receive_after_ack(Seq::empty(), cs.drop_first());
        assert(cs.drop_first() =~= cs.subrange(1, cs.len() as int));
        assert(Seq::<u8>::empty() + spec_bytes_of(cs.drop_first()) =~= spec_bytes_of(cs.drop_first()));
    } else {
        let rest = cs.drop_first();
        assert forall|j: int| 0 <= j < k - 1 implies Signal::spec_from_char(#[trigger] rest[j]) != Some(Signal::Req) by {
            assert(rest[j] == cs[j + 1]);
        }
        assert(Signal::spec_from_char(cs[0]) != Some(Signal::Req));
        lemma_reply_follows_first_ack(rest, k - 1);
        assert(rest.subrange(k, rest.len() as int) =~= cs.subrange(k + 1, cs.len() as int));
    }
}

impl ReadSession {
    /// Markers written so far.
    pub closed spec fn sent(&self) -> nat {
        self.sent as nat
    }

    /// Whether the server has answered with `Req`.
    pub closed spec fn acknowledged(&self) -> bool {
        self.acknowledged
    }

    /// The bytes of the reply received so far.
    pub closed spec fn reply(&self) -> Seq<u8> {
        self.reply@
    }

    /// The states an exchange can be in.
    pub open spec fn wf(&self) -> bool {
        &&& self.sent() <= spec_markers_to_send()
        &&& self.acknowledged() ==> self.sent() == spec_markers_to_send()
        &&& self.reply().len() <= S2C_SIZE
        &&& self.reply().len() > 0 ==> self.acknowledged()
    }

    /// What the exchange does next in a given state.
    pub open spec fn spec_action(&self) -> ReadAction {
        if self.sent() < spec_markers_to_send() {
            ReadAction::Send(Signal::Req.spec_code())
        } else if !self.acknowledged() || self.reply().len() < S2C_SIZE {
            ReadAction::Receive
        } else {
            ReadAction::Finish
        }
    }

    /// A new exchange for `command`.
    pub fn new(command: [u8; C2S_SIZE]) -> (s: ReadSession)
        ensures
            s.wf(),
            s.sent() == 0,
            !s.acknowledged(),
            s.reply() == Seq::<u8>::empty(),
    {
        let _ = command;
        ReadSession { sent: 0, acknowledged: false, reply: Vec::new() }
    }

    /// What the exchange does next.
    pub fn action(&self) -> (a: ReadAction)
        requires
            self.wf(),
        ensures
            a == self.spec_action(),
    {
        if self.sent < C2S_SIZE + 1 {
            ReadAction::Send(Signal::Req.code())
        } else if !self.acknowledged || self.reply.len() < S2C_SIZE {
            ReadAction::Receive
        } else {
            ReadAction::Finish
        }
    }

    /// The byte asked for by `action` has been written.
    pub fn sent_one(&mut self)
        requires
            old(self).wf(),
            old(self).spec_action() is Send,
        ensures
            final(self).wf(),
            final(self).sent() == old(self).sent() + 1,
            final(self).acknowledged() == old(self).acknowledged(),
            final(self).reply() == old(self).reply(),
    {
        self.sent = self.sent + 1;
    }

    /// The character `c` asked for by `action` has been read: before the
    /// server's `Req` it is checked for that marker, after it it is the
    /// next byte of the reply.
    pub fn received(&mut self, c: i32)
        requires
            old(self).wf(),
            old(self).spec_action() is Receive,
        ensures
            final(self).wf(),
            final(self).sent() == old(self).sent(),
            (final(self).acknowledged(), final(self).reply()) == spec_receive(
                old(self).acknowledged(),
                old(self).reply(),
                c,
            ),
    {
        if !self.acknowledged {
            self.acknowledged = wait_signal(Signal::Req, c);
        } else {
            self.reply.push(c as u8);
        }
    }

    /// The reply of a finished exchange.
    pub fn into_reply(self) -> (reply: Vec<u8>)
        requires
            self.wf(),
            self.spec_action() is Finish,
        ensures
            reply@ == self.reply(),
            reply@.len() == S2C_SIZE,
    {
        self.reply
    }
}

} // verus!
