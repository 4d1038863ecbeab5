use vstd::prelude::*;

verus! {

/// The refusal raised when a socket already bound to one reactor is
/// registered with another.
#[derive(Clone, Copy, Debug, PartialEq, Eq, Structural)]
pub enum AffinityError {
    /// The socket is bound to the reactor `bound`; `requested` is a different one.
    AlreadyRegistered { bound: usize, requested: usize },
}

impl AffinityError {
    /// A message that describes the refusal.
    pub fn message(&self) -> (r: &'static str)
        ensures
            r@ == "socket already registered"@,
    {
        "socket already registered"
    }
}

/// Which reactor a socket is bound to, if any. Unset when the socket is
/// wrapped; set by the first registration and never changed afterwards.
#[derive(Clone, Copy, Debug)]
pub struct SelectorId {
    id: Option<usize>,
}

impl View for SelectorId {
    type V = Option<usize>;

    closed spec fn view(&self) -> Option<usize> {
        self.id
    }
}

/// The outcome of binding an affinity that is `current` to the reactor
/// `selector`: `Ok` with the new affinity, or the refusal.
pub open spec fn associate(current: Option<usize>, selector: usize) -> Result<
    Option<usize>,
    AffinityError,
> {
    match current {
        None => Ok(Some(selector)),
        Some(bound) => if bound == selector {
            Ok(Some(bound))
        } else {
            Err(AffinityError::AlreadyRegistered { bound, requested: selector })
        },
    }
}

impl SelectorId {
    /// An affinity bound to no reactor.
    pub fn new() -> (r: SelectorId)
        ensures
            r@ == None::<usize>,
    {
        SelectorId { id: None }
    }

    /// The reactor this affinity is bound to, if any.
    pub fn current(&self) -> (r: Option<usize>)
        ensures
            r == self@,
    {
        self.id
    }

    /// A copy of the current value. The copy is independent: binding one of
    /// the two later does not bind the other.
    pub fn snapshot(&self) -> (r: SelectorId)
        ensures
            r@ == self@,
    {
        SelectorId { id: self.id }
    }

    /// Binds this affinity to the reactor `selector`. Succeeds when it was
    /// unbound or already bound to `selector`; otherwise it is refused and
    /// the affinity is left as it was.
    pub fn associate_selector(&mut self, selector: usize) -> (r: Result<(), AffinityError>)
        ensures
            r is Ok <==> associate(old(self)@, selector) is Ok,
            r is Ok ==> final(self)@ == associate(old(self)@, selector)->Ok_0,
            r is Err ==> final(self)@ == old(self)@,
            r is Err ==> r->Err_0 == associate(old(self)@, selector)->Err_0,
    {
        match self.id {
            None => {
                self.id = Some(selector);
                Ok(())
            },
            Some(bound) => {
                if bound == selector {
                    Ok(())
                } else {
                    Err(AffinityError::AlreadyRegistered { bound, requested: selector })
                }
            },
        }
    }
}

/// Once an affinity is bound to reactor `a`, binding it to a different
/// reactor `b` is refused, and the affinity still names `a`.
pub proof fn lemma_other_reactor_refused(current: Option<usize>, a: usize, b: usize)
    requires
        a != b,
        associate(current, a) is Ok,
    ensures
        associate(current, a)->Ok_0 == Some(a),
        associate(associate(current, a)->Ok_0, b) == Err::<Option<usize>, AffinityError>(
            AffinityError::AlreadyRegistered { bound: a, requested: b },
        ),
{
}

/// Binding to the same reactor twice succeeds both times, and the second
/// binding changes nothing.
pub proof fn lemma_same_reactor_idempotent(current: Option<usize>, a: usize)
    requires
        associate(current, a) is Ok,
    ensures
        associate(associate(current, a)->Ok_0, a) == associate(current, a),
{
}

} // verus!
