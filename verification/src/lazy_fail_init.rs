//! A container that is filled at most once, by a creation function that may
//! fail and be tried again.

use vstd::prelude::*;
use vstd::string::*;

verus! {

/// `LazyFailInit<T>` is a lazily initialized container
/// where the initialization may be attempted as many times as needed to succeed,
/// but whose value is immutable once an attempt has succeeded.
///
/// Every operation that may write takes `&mut self`, so two creation functions
/// never run at the same time; share a container between threads behind a lock.
pub struct LazyFailInit<T> {
    value: Option<T>,
}

/// Whether a call of `get_or_create` on a container with these contents
/// invokes its creation function.
pub open spec fn invokes_creator<T>(contents: Option<T>) -> bool {
    contents is None
}

/// The contents of a container after one call of `get_or_create` whose
/// creation function, where it is invoked, returns `outcome`.
pub open spec fn after_attempt<T, E>(contents: Option<T>, outcome: Result<T, E>) -> Option<T> {
    if invokes_creator(contents) {
        match outcome {
            Ok(x) => Some(x),
            Err(_) => None,
        }
    } else {
        contents
    }
}

/// The contents after a series of calls of `get_or_create`, the creation
/// function of the `i`-th call returning `outcomes[i]` where it is invoked.
pub open spec fn after_attempts<T, E>(contents: Option<T>, outcomes: Seq<Result<T, E>>) -> Option<T>
    decreases outcomes.len(),
{
    if outcomes.len() == 0 {
        contents
    } else {
        after_attempt(after_attempts(contents, outcomes.drop_last()), outcomes.last())
    }
}

/// How many of the calls in such a series invoke their creation function.
pub open spec fn invocations<T, E>(contents: Option<T>, outcomes: Seq<Result<T, E>>) -> nat
    decreases outcomes.len(),
{
    if outcomes.len() == 0 {
        0
    } else {
        let earlier = outcomes.drop_last();
        let ran: nat = if invokes_creator(after_attempts(contents, earlier)) {
            1
        } else {
            0
        };
        invocations(contents, earlier) + ran
    }
}

/// What a call of `get_or_create` hands back, with the borrowed value copied
/// out, so that it can be held against what the creation function returned.
pub open spec fn owned_outcome<T, E>(res: Result<&T, E>) -> Result<T, E> {
    match res {
        Ok(v) => Ok(*v),
        Err(e) => Err(e),
    }
}

/// The text that stands for a container whose value, if it has one, is
/// written as `inner`.
pub open spec fn rendering(inner: Option<Seq<char>>) -> Seq<char> {
    match inner {
        Some(text) => "LazyFailInit("@ + text + ")"@,
        None => "LazyFailInit(<uninitialized>)"@,
    }
}

impl<T> View for LazyFailInit<T> {
    type V = Option<T>;

    /// The value held, if any attempt has succeeded so far.
    closed spec fn view(&self) -> Option<T> {
        self.value
    }
}

impl<T> LazyFailInit<T> {
    /// Whether some creation attempt has succeeded.
    pub open spec fn is_initialized(&self) -> bool {
        self@ is Some
    }

    /// Construct a new, uninitialized `LazyFailInit<T>`.
    pub fn new() -> (cell: Self)
        ensures
            cell@ is None,
    {
        LazyFailInit { value: None }
    }

    /// Get a reference to the contained value,
    /// invoking `f` to create it if the container is uninitialized.
    ///
    /// `f` has to be callable only while the container is uninitialized: once
    /// an attempt has succeeded no creation function is invoked again.
    /// An error of `f` is handed to the caller as it is and is not remembered:
    /// the container stays uninitialized and the next call invokes its own `f`.
    pub fn get_or_create<E, F: FnOnce() -> Result<T, E>>(&mut self, f: F) -> (res: Result<&T, E>)
        requires
            invokes_creator(old(self)@) ==> f.requires(()),
        ensures
            invokes_creator(old(self)@) ==> f.ensures((), owned_outcome(res)),
            !invokes_creator(old(self)@) ==> owned_outcome(res) == Ok::<T, E>(old(self)@->0),
            final(self)@ == after_attempt(old(self)@, owned_outcome(res)),
    {
        if self.value.is_none() {
            match f() {
                Ok(x) => {
                    self.value = Some(x);
                },
                Err(err) => {
                    return Err(err);
                },
            }
        }
        Ok(self.value.as_ref().unwrap())
    }

    /// Get a reference to the contained value,
    /// returning `Some(ref)` if the container has been initialized
    /// or `None` if it has not. No creation function is involved.
    pub fn get(&self) -> (res: Option<&T>)
        ensures
            match res {
                Some(v) => self@ == Some(*v),
                None => self@ is None,
            },
    {
        self.value.as_ref()
    }
}

impl<T: core::fmt::Debug> LazyFailInit<T> {
    /// The container as text: its value between brackets, written as `Debug`
    /// writes it, or a note that it is uninitialized.
    pub fn describe(&self) -> (text: String)
        ensures
            self@ is None ==> text@ == rendering(None),
            self@ is Some ==> exists|inner: Seq<char>| text@ == rendering(Some(inner)),
    {
        match self.get() {
            Some(x) => {
                let inner = debug_text(x);
                render(Some(inner.as_str()))
            },
            None => render(None),
        }
    }
}

impl<T> Default for LazyFailInit<T> {
    fn default() -> (cell: Self)
        ensures
            cell@ is None,
    {
        LazyFailInit::new()
    }
}

/// Write a container's text around the text of its value.
pub fn render(inner: Option<&str>) -> (text: String)
    ensures
        text@ == rendering(
            match inner {
                Some(s) => Some(s@),
                None => None,
            },
        ),
{
    match inner {
        Some(s) => {
            let mut text = String::from_str("LazyFailInit(");
            text.append(s);
            text.append(")");
            text
        },
        None => String::from_str("LazyFailInit(<uninitialized>)"),
    }
}

/// `format!` with `{:?}`: the value as its `Debug` impl writes it. Nothing is
/// claimed of the text, which is whatever that impl produces.
#[verifier::external_body]
fn debug_text<T: core::fmt::Debug>(x: &T) -> (text: String) {
    format!("{:?}", x)
}

/// A failed attempt leaves the container uninitialized, and a later attempt
/// that succeeds initializes it with the value it created.
pub proof fn lemma_failure_is_not_remembered<T, E>(e: E, x: T)
    ensures
        after_attempt(None::<T>, Err::<T, E>(e)) is None,
        after_attempt(after_attempt(None::<T>, Err::<T, E>(e)), Ok::<T, E>(x)) == Some(x),
{
}

/// Once initialized, a container keeps its value whatever later attempts
/// would return, and none of them invokes a creation function.
pub proof fn lemma_initialized_is_final<T, E>(x: T, later: Seq<Result<T, E>>)
    ensures
        after_attempts(Some(x), later) == Some(x),
        invocations(Some(x), later) == 0,
    decreases later.len(),
{
    if later.len() > 0 {
        lemma_initialized_is_final(x, later.drop_last());
    }
}

/// While every attempt fails, the container stays uninitialized and each call
/// invokes its creation function exactly once.
pub proof fn lemma_failures_retry<T, E>(failures: Seq<Result<T, E>>)
    requires
        forall|i: int| 0 <= i < failures.len() ==> failures[i] is Err,
    ensures
        after_attempts(None::<T>, failures) is None,
        invocations(None::<T>, failures) == failures.len(),
    decreases failures.len(),
{
    if failures.len() > 0 {
        lemma_failures_retry(failures.drop_last());
    }
}

/// A series of attempts continues a shorter one: the contents go on from
/// where the first part left them, and the invocations add up.
pub proof fn lemma_attempts_concat<T, E>(
    contents: Option<T>,
    first: Seq<Result<T, E>>,
    rest: Seq<Result<T, E>>,
)
    ensures
        after_attempts(contents, first + rest) == after_attempts(
            after_attempts(contents, first),
            rest,
        ),
        invocations(contents, first + rest) == invocations(contents, first) + invocations(
            after_attempts(contents, first),
            rest,
        ),
    decreases rest.len(),
{
    if rest.len() == 0 {
    } else {
        assert((first + rest).drop_last() =~= first + rest.drop_last());
        lemma_attempts_concat(contents, first, rest.drop_last());
    }
}

/// Attempts that all fail but the last, which creates `x`: the creation
/// function is invoked once per attempt, the container then holds `x`, and
/// however many calls follow, it still holds `x` and no creation function is
/// invoked again.
pub proof fn lemma_created_once<T, E>(
    failures: Seq<Result<T, E>>,
    x: T,
    later: Seq<Result<T, E>>,
)
    requires
        forall|i: int| 0 <= i < failures.len() ==> failures[i] is Err,
    ensures
        after_attempts(None::<T>, failures.push(Ok(x))) == Some(x),
        invocations(None::<T>, failures.push(Ok(x))) == failures.len() + 1,
        after_attempts(None::<T>, failures.push(Ok(x)) + later) == Some(x),
        invocations(None::<T>, failures.push(Ok(x)) + later) == failures.len() + 1,
{
    let attempts = failures.push(Ok(x));
    lemma_failures_retry(failures);
    assert(attempts.drop_last() =~= failures);
    lemma_attempts_concat(None::<T>, attempts, later);
    lemma_initialized_is_final(x, later);
}

} // verus!
