//! The client: whatever carries a request to the service and brings its
//! answer back.
//!
//! The operations of this crate do not talk to the service themselves. They
//! are handed a client, ask it once, and give back what it answered. What a
//! client is, beyond that it can be asked, is left to the caller: one that
//! speaks HTTP in earnest, or the [`Recorder`] of this module, which only
//! keeps what it is asked.

use crate::error::Error;
use crate::payment_method::PaymentMethod;
use vstd::prelude::*;
use vstd::string::StringExecFns;

verus! {

/// What a request comes to: the resource, or why there is none.
pub type Response<T> = Result<T, Error>;

/// The one thing that the operations ask of a client.
///
/// A client is borrowed exclusively while it is asked, so that what it was
/// before and what it is after can be told apart. One that is shared between
/// callers implements the trait for its shared reference.
pub trait Client {
    /// Whether a single exchange leads from this client to `after`: the
    /// client was asked to post `body` to `path`, and gave `answer`.
    ///
    /// A client that makes nothing known about itself leaves this as it
    /// stands. One that does, such as the [`Recorder`], lets a caller of an
    /// operation conclude what was asked, how often, and what came of it.
    open spec fn exchange(
        &self,
        after: &Self,
        path: Seq<char>,
        body: Seq<char>,
        answer: Response<PaymentMethod>,
    ) -> bool {
        true
    }

    /// Posts `body`, a form body, to `path`, and reads what comes back as a
    /// payment method. Any failure on the way is the answer's error.
    fn post_form(&mut self, path: &str, body: &str) -> (answer: Response<PaymentMethod>)
        ensures
            old(self).exchange(final(self), path@, body@, answer),
    ;
}

/// A client that sends nothing. It keeps every request that it is handed,
/// oldest first, and answers each with the reply it was made with.
pub struct Recorder {
    /// The answer to every request.
    pub reply: Response<PaymentMethod>,
    /// The path and the body of each request so far.
    pub seen: Vec<(String, String)>,
}

impl Recorder {
    /// The requests so far, each as the text of its path and of its body.
    pub open spec fn requests(&self) -> Seq<(Seq<char>, Seq<char>)> {
        Seq::new(self.seen@.len(), |i: int| (self.seen@[i].0@, self.seen@[i].1@))
    }

    /// A recorder that has not been asked yet, and will answer with `reply`.
    pub fn new(reply: Response<PaymentMethod>) -> (client: Self)
        ensures
            client.reply == reply,
            client.requests() == Seq::<(Seq<char>, Seq<char>)>::empty(),
    {
        Recorder { reply, seen: Vec::new() }
    }
}

impl Client for Recorder {
    open spec fn exchange(
        &self,
        after: &Self,
        path: Seq<char>,
        body: Seq<char>,
        answer: Response<PaymentMethod>,
    ) -> bool {
        &&& answer == self.reply
        &&& after.reply == self.reply
        &&& after.requests() == self.requests().push((path, body))
    }

    fn post_form(&mut self, path: &str, body: &str) -> (answer: Response<PaymentMethod>) {
        self.seen.push((String::from_str(path), String::from_str(body)));
        assert(self.requests() == old(self).requests().push((path@, body@)));
        match &self.reply {
            Ok(resource) => Ok(resource.clone()),
            Err(error) => Err(error.clone()),
        }
    }
}

/// One exchange adds the request to those that a recorder keeps, as the
/// newest and the only new one, and is answered with the recorder's reply:
/// a resource as it is, an error as it is.
pub proof fn lemma_recorder_exchange(
    before: Recorder,
    after: Recorder,
    path: Seq<char>,
    body: Seq<char>,
    answer: Response<PaymentMethod>,
)
    requires
        before.exchange(&after, path, body, answer),
    ensures
        answer == before.reply,
        after.reply == before.reply,
        after.requests().len() == before.requests().len() + 1,
        after.requests().last() == (path, body),
        after.requests().drop_last() == before.requests(),
{
}

} // verus!
