//! The decisions of the ingestion server: what each connection does with the
//! bytes it receives, and what it answers.
use std::sync::Arc;
use vstd::prelude::*;
use vstd::string::*;
use crate::protocol::{decode, error_message, BasketballProtocol, ParseError, FRAME_LEN};
use crate::store::SnapshotStore;
use crate::stream::{frame_at, frame_count, residual, StreamReassembler};

verus! {

/// The line sent back for the outcome of decoding one frame.
pub open spec fn reply_text(r: Result<BasketballProtocol, ParseError>) -> Seq<char> {
    match r {
        Ok(_) => "ACK\n"@,
        Err(e) => "ERROR: "@ + error_message(e) + "\n"@,
    }
}

/// The line sent back for the outcome of decoding one frame: `ACK` on
/// success, else `ERROR: ` and the failure's description.
pub fn reply_for(r: &Result<BasketballProtocol, ParseError>) -> (s: String)
    ensures
        s@ == reply_text(*r),
{
    match r {
        Ok(_) => String::from_str("ACK\n"),
        Err(e) => {
            let mut s = String::from_str("ERROR: ");
            let message = e.message();
            s.append(message.as_str());
            s.append("\n");
            s
        },
    }
}

/// Whether a store takes exactly the well-formed snapshots.
pub open spec fn admits_valid(state: &SnapshotStore) -> bool {
    forall|s: BasketballProtocol| #[trigger] state.admits(s) == s.wf()
}

/// One connection's state: the bytes held back, and the shared store it
/// publishes to.
pub struct Session {
    reassembler: StreamReassembler,
    state: Arc<SnapshotStore>,
}

impl Session {
    /// Fewer bytes held back than a frame, and a store that takes every
    /// well-formed snapshot.
    pub open spec fn wf(&self) -> bool {
        &&& self.pending().len() < FRAME_LEN
        &&& forall|s: BasketballProtocol| s.wf() ==> #[trigger] self.state().admits(s)
    }

    /// The bytes held back until a frame is whole.
    pub closed spec fn pending(&self) -> Seq<u8> {
        self.reassembler.pending()
    }

    /// The store this connection publishes to.
    pub closed spec fn state(&self) -> Arc<SnapshotStore> {
        self.state
    }

    /// A fresh connection that publishes to `state`.
    pub fn new(state: Arc<SnapshotStore>) -> (r: Self)
        requires
            forall|s: BasketballProtocol| s.wf() ==> #[trigger] state.admits(s),
        ensures
            r.pending() == Seq::<u8>::empty(),
            r.state() == state,
            r.wf(),
    {
        Session { reassembler: StreamReassembler::new(), state }
    }

    /// Handles one chunk read from the connection. Every frame that it
    /// completes is decoded in arrival order; one that decodes is written to
    /// the store. The result holds, per frame and in the same order, the
    /// outcome of decoding it and the reply to send; a frame that fails
    /// costs only its own 14 bytes.
    pub fn receive(&mut self, chunk: &[u8]) -> (replies: Vec<
        (Result<BasketballProtocol, ParseError>, String),
    >)
        requires
            old(self).wf(),
            old(self).pending().len() + chunk@.len() <= usize::MAX,
        ensures
            ({
                let all = old(self).pending() + chunk@;
                &&& replies@.len() == frame_count(all)
                &&& forall|i: int|
                    0 <= i < replies@.len() ==> {
                        &&& (#[trigger] replies@[i]).0 == decode(frame_at(all, i))
                        &&& replies@[i].1@ == reply_text(decode(frame_at(all, i)))
                    }
                &&& final(self).pending() == residual(all)
            }),
            final(self).state() == old(self).state(),
            final(self).wf(),
    {
        let ghost all = self.reassembler.pending() + chunk@;
        let frames = self.reassembler.feed(chunk);
        assert(self.state() == old(self).state());
        let mut replies: Vec<(Result<BasketballProtocol, ParseError>, String)> = Vec::new();
        let mut i: usize = 0;
        while i < frames.len()
            invariant
                frames@.len() == frame_count(all),
                forall|j: int| 0 <= j < frames@.len() ==> (#[trigger] frames@[j])@ == frame_at(all, j),
                i <= frames@.len(),
                replies@.len() == i,
                forall|j: int|
                    0 <= j < i ==> {
                        &&& (#[trigger] replies@[j]).0 == decode(frame_at(all, j))
                        &&& replies@[j].1@ == reply_text(decode(frame_at(all, j)))
                    },
                self.state() == old(self).state(),
                self.pending() == residual(all),
                forall|s: BasketballProtocol| s.wf() ==> #[trigger] self.state().admits(s),
            decreases frames@.len() - i,
        {
            let outcome = BasketballProtocol::parse(frames[i].as_slice());
            if let Ok(snapshot) = outcome {
                self.state.write(snapshot);
            }
            let reply = reply_for(&outcome);
            replies.push((outcome, reply));
            i = i + 1;
        }
        replies
    }
}

/// The ingestion server: where it listens, and the store that its
/// connections publish to.
pub struct BasketballServer {
    address: String,
    current_state: Arc<SnapshotStore>,
}

impl BasketballServer {
    #[verifier::type_invariant]
    spec fn inv(self) -> bool {
        admits_valid(&*self.current_state)
    }

    /// The address the server listens on.
    pub closed spec fn address_view(&self) -> Seq<char> {
        self.address@
    }

    /// The store the server publishes to.
    pub closed spec fn state(&self) -> Arc<SnapshotStore> {
        self.current_state
    }

    /// A server for `address` with a store of its own, empty to begin with.
    pub fn new(address: &str) -> (r: Self)
        ensures
            r.address_view() == address@,
            admits_valid(&*r.state()),
    {
        BasketballServer {
            address: String::from_str(address),
            current_state: Arc::new(SnapshotStore::new()),
        }
    }

    /// A server for `address` that publishes to a store shared with others.
    pub fn with_shared_state(address: &str, state: Arc<SnapshotStore>) -> (r: Self)
        requires
            admits_valid(&*state),
        ensures
            r.address_view() == address@,
            r.state() == state,
    {
        BasketballServer { address: String::from_str(address), current_state: state }
    }

    /// The address the server listens on.
    pub fn address(&self) -> (r: &str)
        ensures
            r@ == self.address_view(),
    {
        self.address.as_str()
    }

    /// The shared store, for handing to each new connection.
    pub fn shared_state(&self) -> (r: &Arc<SnapshotStore>)
        ensures
            *r == self.state(),
            admits_valid(&**r),
    {
        proof {
            use_type_invariant(self);
        }
        &self.current_state
    }

    /// The latest snapshot that any connection published, if any.
    pub fn get_current_state(&self) -> (r: Option<BasketballProtocol>)
        ensures
            r matches Some(s) ==> s.wf(),
    {
        proof {
            use_type_invariant(self);
        }
        self.current_state.read()
    }
}

} // verus!
