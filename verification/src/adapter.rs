//! The starting point of all requests: the parts that every request of one
//! service shares.

use crate::error::Error;
use crate::executor::{DefaultExecutor, Executor, Sentinel};
use crate::mpmc::{channel, JobQueue, Sender, Wake};
use crate::net::body::Body;
use crate::net::call::{Call, PanicGuard};
use crate::net::intercept::{Chain, Chain2, Interceptor, NoIntercept};
use crate::net::request::{InFlight, Job, Request, Stage};
use crate::net::response::{FromResponse, Response};
use crate::serialize::none::NoSerializer;
use crate::serialize::{Deserializer, FromStrDeserializer, Serializer};
use vstd::prelude::*;

verus! {

/// A builder for `Adapter`. Call `Adapter::builder()` to get an instance.
pub struct AdapterBuilder<S, D, E, I> {
    base_url: Option<String>,
    executor: E,
    interceptor: I,
    serializer: S,
    deserializer: D,
}

impl AdapterBuilder<NoSerializer, FromStrDeserializer, DefaultExecutor, NoIntercept> {
    fn new() -> (builder: Self)
        ensures
            builder.parts().0 is None,
    {
        AdapterBuilder {
            base_url: None,
            executor: DefaultExecutor::new(),
            interceptor: NoIntercept,
            serializer: NoSerializer,
            deserializer: FromStrDeserializer,
        }
    }
}

impl<S, D, E, I> AdapterBuilder<S, D, E, I> {
    /// The parts that the builder holds: the base URL, the executor, the
    /// interceptor, the serializer and the deserializer.
    pub closed spec fn parts(&self) -> (Option<String>, E, I, S, D) {
        (self.base_url, self.executor, self.interceptor, self.serializer, self.deserializer)
    }

    /// Set the base URL that the adapter will use for all requests.
    ///
    /// If a base URL is not provided, then all service method URLs are
    /// assumed to be absolute.
    pub fn base_url(self, url: String) -> (builder: Self)
        ensures
            builder.parts() == (Some(url), self.parts().1, self.parts().2, self.parts().3, self.parts().4),
    {
        AdapterBuilder { base_url: Some(url), ..self }
    }

    /// Set a new executor for the adapter.
    pub fn executor<E_>(self, executor: E_) -> (builder: AdapterBuilder<S, D, E_, I>)
        ensures
            builder.parts() == (self.parts().0, executor, self.parts().2, self.parts().3, self.parts().4),
    {
        AdapterBuilder {
            base_url: self.base_url,
            executor: executor,
            interceptor: self.interceptor,
            serializer: self.serializer,
            deserializer: self.deserializer,
        }
    }

    /// Set a new interceptor for the adapter.
    pub fn interceptor<I_>(self, interceptor: I_) -> (builder: AdapterBuilder<S, D, E, I_>)
        ensures
            builder.parts() == (self.parts().0, self.parts().1, interceptor, self.parts().3, self.parts().4),
    {
        AdapterBuilder {
            base_url: self.base_url,
            executor: self.executor,
            interceptor: interceptor,
            serializer: self.serializer,
            deserializer: self.deserializer,
        }
    }

    /// Chain a new interceptor with the current one. They will be called
    /// in-order.
    pub fn chain_interceptor<I_>(self, next: I_) -> (builder: AdapterBuilder<S, D, E, Chain<I, I_>>)
        ensures
            builder.parts() == (
                self.parts().0,
                self.parts().1,
                Chain(self.parts().2, next),
                self.parts().3,
                self.parts().4,
            ),
    {
        AdapterBuilder {
            base_url: self.base_url,
            executor: self.executor,
            interceptor: Chain(self.interceptor, next),
            serializer: self.serializer,
            deserializer: self.deserializer,
        }
    }

    /// Set a new `Serializer` impl for the adapter.
    pub fn serializer<S_>(self, serialize: S_) -> (builder: AdapterBuilder<S_, D, E, I>)
        ensures
            builder.parts() == (self.parts().0, self.parts().1, self.parts().2, serialize, self.parts().4),
    {
        AdapterBuilder {
            base_url: self.base_url,
            executor: self.executor,
            interceptor: self.interceptor,
            serializer: serialize,
            deserializer: self.deserializer,
        }
    }

    /// Set a new `Deserializer` impl for the adapter.
    pub fn deserializer<D_>(self, deserialize: D_) -> (builder: AdapterBuilder<S, D_, E, I>)
        ensures
            builder.parts() == (self.parts().0, self.parts().1, self.parts().2, self.parts().3, deserialize),
    {
        AdapterBuilder {
            base_url: self.base_url,
            executor: self.executor,
            interceptor: self.interceptor,
            serializer: self.serializer,
            deserializer: deserialize,
        }
    }
}

/// What `AdapterBuilder::build` makes: the adapter, the queue that its
/// requests go to, and the workers that the executor named for it.
#[verifier::reject_recursive_types(J)]
pub struct Built<S, D, I, J> {
    /// The adapter.
    pub adapter: Adapter<S, D, I>,
    /// The queue that the adapter's sender feeds.
    pub queue: JobQueue<J>,
    /// The workers to put on threads.
    pub workers: Vec<Sentinel>,
}

impl<S: Serializer, D: Deserializer, E: Executor, I: Interceptor> AdapterBuilder<S, D, E, I> {
    /// Using the supplied types, complete the adapter.
    ///
    /// A queue is made for the adapter, with the number 0, and
    /// `<E as Executor>::start()` is called with its receiver. The adapter's
    /// sender belongs to every queue of that number: an adapter is to be
    /// used with the queue that was made for it.
    pub fn build<J>(self) -> (built: Built<S, D, I, J>)
        ensures
            built.queue.wf(),
            built.queue@ == Seq::<J>::empty(),
            built.queue.sent() == Seq::<J>::empty(),
            built.queue.taken() == Seq::<J>::empty(),
            built.queue.senders() == 1,
            !built.queue.is_closed(),
            built.adapter.spec_sender().delivers(&built.queue),
            built.adapter.parts() == (self.parts().0, self.parts().2, self.parts().3, self.parts().4),
            exists|recv: crate::mpmc::Receiver| #[trigger]
                recv.drains(&built.queue) && self.parts().1.names(recv, built.workers@),
    {
        let (tx, rx, queue) = channel(0);
        let workers = self.executor.start(rx);
        assert(rx.drains(&queue) && self.parts().1.names(rx, workers@));
        let adapter = Adapter {
            base_url: self.base_url,
            serializer: self.serializer,
            deserializer: self.deserializer,
            interceptor: self.interceptor,
            sender: tx,
        };
        Built { adapter, queue, workers }
    }
}

/// The starting point of all requests.
///
/// Use `builder()` to start constructing an instance.
pub struct Adapter<S, D, I> {
    base_url: Option<String>,
    serializer: S,
    deserializer: D,
    interceptor: I,
    sender: Sender,
}

impl Adapter<NoSerializer, FromStrDeserializer, NoIntercept> {
    /// Start building an `Adapter` using the default inner types.
    pub fn builder() -> (builder: AdapterBuilder<
        NoSerializer,
        FromStrDeserializer,
        DefaultExecutor,
        NoIntercept,
    >)
        ensures
            builder.parts().0 is None,
    {
        AdapterBuilder::new()
    }
}

impl<S, D, I> Adapter<S, D, I> {
    /// The parts that the adapter holds: the base URL, the interceptor, the
    /// serializer and the deserializer.
    pub closed spec fn parts(&self) -> (Option<String>, I, S, D) {
        (self.base_url, self.interceptor, self.serializer, self.deserializer)
    }

    /// The sender that the adapter's requests go through.
    pub closed spec fn spec_sender(&self) -> Sender {
        self.sender
    }

    /// The adapter's serializer.
    pub fn serializer(&self) -> (serializer: &S)
        ensures
            *serializer == self.parts().2,
    {
        &self.serializer
    }

    /// The adapter's deserializer.
    pub fn deserializer(&self) -> (deserializer: &D)
        ensures
            *deserializer == self.parts().3,
    {
        &self.deserializer
    }

    /// The adapter's interceptor.
    pub fn interceptor(&self) -> (interceptor: &I)
        ensures
            *interceptor == self.parts().1,
    {
        &self.interceptor
    }

    /// The sender that the adapter's requests go through.
    pub fn sender(&self) -> (sender: &Sender)
        ensures
            *sender == self.spec_sender(),
    {
        &self.sender
    }

    /// The text of the adapter's base URL, if it has one.
    pub open spec fn base_url(&self) -> Option<Seq<char>> {
        match self.parts().0 {
            Some(url) => Some(url@),
            None => None,
        }
    }

    /// The base URL of the adapter, if it has one.
    pub fn base(&self) -> (base: Option<&str>)
        ensures
            crate::net::request::base_text(base) == self.base_url(),
    {
        match &self.base_url {
            Some(url) => Some(url.as_str()),
            None => None,
        }
    }
}

impl<S, D, I> Adapter<S, D, I> {
    /// Modify this adaptor's interceptor: the answer takes the adapter and
    /// gives it back with the interceptor that was asked for.
    pub fn interceptor_mut(self) -> (change: InterceptorMut<S, D, I>)
        ensures
            change.0 == self,
    {
        InterceptorMut(self)
    }
}

/// A mutator for modifying the `Interceptor` of an `Adapter`.
pub struct InterceptorMut<S, D, I>(pub Adapter<S, D, I>);

impl<S, D, I> InterceptorMut<S, D, I> {
    /// Remove the interceptor from the adapter.
    pub fn remove(self) -> (adapter: Adapter<S, D, NoIntercept>)
        ensures
            adapter.parts() == (self.0.parts().0, NoIntercept, self.0.parts().2, self.0.parts().3),
            adapter.spec_sender() == self.0.spec_sender(),
    {
        self.set(NoIntercept)
    }

    /// Set a new interceptor, discarding the old one.
    pub fn set<I_>(self, new: I_) -> (adapter: Adapter<S, D, I_>)
        ensures
            adapter.parts() == (self.0.parts().0, new, self.0.parts().2, self.0.parts().3),
            adapter.spec_sender() == self.0.spec_sender(),
    {
        Adapter {
            base_url: self.0.base_url,
            serializer: self.0.serializer,
            deserializer: self.0.deserializer,
            interceptor: new,
            sender: self.0.sender,
        }
    }

    /// Chain the given `Interceptor` before the one currently in the
    /// adapter.
    pub fn chain_before<I_>(self, before: I_) -> (adapter: Adapter<S, D, Chain<I_, I>>)
        ensures
            adapter.parts() == (
                self.0.parts().0,
                Chain(before, self.0.parts().1),
                self.0.parts().2,
                self.0.parts().3,
            ),
            adapter.spec_sender() == self.0.spec_sender(),
    {
        Adapter {
            base_url: self.0.base_url,
            serializer: self.0.serializer,
            deserializer: self.0.deserializer,
            interceptor: Chain(before, self.0.interceptor),
            sender: self.0.sender,
        }
    }

    /// Chain the given `Interceptor` after the one currently in the
    /// adapter.
    pub fn chain_after<I_>(self, after: I_) -> (adapter: Adapter<S, D, Chain<I, I_>>)
        ensures
            adapter.parts() == (
                self.0.parts().0,
                Chain(self.0.parts().1, after),
                self.0.parts().2,
                self.0.parts().3,
            ),
            adapter.spec_sender() == self.0.spec_sender(),
    {
        Adapter {
            base_url: self.0.base_url,
            serializer: self.0.serializer,
            deserializer: self.0.deserializer,
            interceptor: Chain(self.0.interceptor, after),
            sender: self.0.sender,
        }
    }

    /// Chain the given `Interceptor`s before and after the one currently in
    /// the adapter.
    pub fn chain_around<I1, I2>(self, before: I1, after: I2) -> (adapter: Adapter<
        S,
        D,
        Chain2<I1, I, I2>,
    >)
        ensures
            adapter.parts() == (
                self.0.parts().0,
                Chain2(before, self.0.parts().1, after),
                self.0.parts().2,
                self.0.parts().3,
            ),
            adapter.spec_sender() == self.0.spec_sender(),
    {
        Adapter {
            base_url: self.0.base_url,
            serializer: self.0.serializer,
            deserializer: self.0.deserializer,
            interceptor: Chain2(before, self.0.interceptor, after),
            sender: self.0.sender,
        }
    }
}

impl<S: Serializer, D: Deserializer, I: Interceptor> Adapter<S, D, I> {
    /// Hand a request to the adapter's queue: `Request::exec` with the
    /// adapter's sender.
    pub fn submit<T, B: Body>(&self, request: Request<T, B>, queue: &mut JobQueue<Job<T, B>>) -> (queued:
        (Call<T>, Wake))
        requires
            old(queue).wf(),
            request.job() is Some && self.spec_sender().delivers(old(queue)) ==> old(
                queue).accepted() < u64::MAX,
        ensures
            final(queue).wf(),
            final(queue).id() == old(queue).id(),
            final(queue).senders() == old(queue).senders(),
            final(queue).is_closed() == old(queue).is_closed(),
            final(queue).taken() == old(queue).taken(),
            queued.0@ == request.call(),
            match request.job() {
                Some(job) if self.spec_sender().delivers(old(queue)) => final(queue)@ == old(
                    queue)@.push(job) && final(queue).sent() == old(queue).sent().push(job)
                    && queued.1 == Wake::One,
                _ => final(queue)@ == old(queue)@ && final(queue).sent() == old(queue).sent()
                    && queued.1 == Wake::Nobody,
            },
    {
        request.exec(&self.sender, queue)
    }

    /// Enter the stages of a job that come before the transport, with the
    /// adapter's base URL, serializer and interceptor.
    pub fn prepare<T, B: Body>(&self, job: Job<T, B>) -> (stage: Stage<T, B::Readable>)
        ensures
            job.prepares(
                self.base_url(),
                crate::serialize::writer(&self.parts().2),
                Some(&self.parts().1),
                stage,
            ),
    {
        let base = self.base();
        job.prepare(base, &self.serializer, Some(&self.interceptor))
    }

    /// Enter the stages of a job that come behind the transport, with the
    /// adapter's deserializer. The guard that resolved the call comes back,
    /// disarmed.
    pub fn finish<T: FromResponse>(
        &self,
        flight: InFlight<T>,
        response: core::result::Result<Response, Error>,
    ) -> (guard: PanicGuard<T>)
        ensures
            !guard.is_armed(),
            guard.said() matches Some(res) && crate::net::request::decoded(
                crate::serialize::reader(&self.parts().3),
                response,
                res,
            ),
            guard.head() == Some(flight.head()),
    {
        flight.finish(&self.deserializer, response)
    }
}

} // verus!
