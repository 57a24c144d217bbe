//! The Audio Toolbox framework: its per-process state and the OpenAL context
//! that its audio services share.

use vstd::prelude::*;

pub mod audio_file;
pub mod extended_audio_file;

verus! {

/// State of the Audio Toolbox framework.
pub struct State<C> {
    /// Open Extended Audio File Services handles.
    pub ext_audio_file: extended_audio_file::State,
    /// The OpenAL context used by the framework's audio services, created on
    /// first use.
    pub al_context: LazyALContext<C>,
}

impl<C> State<C> {
    /// A fresh framework state: no extended audio files open and no OpenAL
    /// context created yet.
    pub fn new() -> (s: Self)
        ensures
            s.ext_audio_file.files() == Map::<u32, extended_audio_file::ExtAudioFileHostObject>::empty(),
            s.al_context.context() is None,
    {
        State { ext_audio_file: extended_audio_file::State::new(), al_context: LazyALContext::new() }
    }

    /// Makes the framework's OpenAL context current, creating it first if it
    /// does not exist yet; see [`LazyALContext::make_al_context_current`].
    pub fn make_al_context_current<'s, E, G, F, H>(&'s mut self, create: F, make_current: H) -> (r: G) where
        F: FnOnce() -> Result<C, E>,
        H: FnOnce(&'s C) -> G,
        requires
            creation_cannot_fail(old(self).al_context.context(), create),
            forall|c: &'s C| make_current.requires((c,)),
        ensures
            final(self).ext_audio_file == old(self).ext_audio_file,
            final(self).al_context.context() is Some,
            fetch_outcome(old(self).al_context.context(), create, final(self).al_context.context()),
            make_current.ensures((&final(self).al_context.context()->0,), r),
    {
        self.al_context.make_al_context_current(create, make_current)
    }
}

impl<C> Default for State<C> {
    fn default() -> (s: Self)
        ensures
            s.ext_audio_file.files() == Map::<u32, extended_audio_file::ExtAudioFileHostObject>::empty(),
            s.al_context.context() is None,
    {
        State::new()
    }
}

impl<C> Default for LazyALContext<C> {
    fn default() -> (r: Self)
        ensures
            r.context() is None,
    {
        LazyALContext::new()
    }
}

/// What asking for the context can give, where `before` is the context held
/// before the call: an existing context is given back as it is; otherwise
/// `create` is called, and its context is given on success, nothing on
/// failure.
pub open spec fn fetch_outcome<C, E, F: FnOnce() -> Result<C, E>>(
    before: Option<C>,
    create: F,
    got: Option<C>,
) -> bool {
    match before {
        Some(c) => got == Some(c),
        None => match got {
            Some(c) => create.ensures((), Ok(c)),
            None => exists|e: E| create.ensures((), Err(e)),
        },
    }
}

/// Where no context is held yet, `create` can be called and succeeds on every
/// outcome.
pub open spec fn creation_cannot_fail<C, E, F: FnOnce() -> Result<C, E>>(
    before: Option<C>,
    create: F,
) -> bool {
    before is None ==> {
        &&& create.requires(())
        &&& forall|res: Result<C, E>| create.ensures((), res) ==> res is Ok
    }
}

/// `get_context` is `try_get_context` followed by `expect`: on the calls that
/// `get_context` admits (creation cannot fail), `try_get_context` always
/// gives a context, so the `expect` never fails and both give the same
/// context; `try_get_context` gives nothing only where no context was held
/// and creation can fail, the calls that `get_context` leaves out.
pub proof fn lemma_get_context_is_expect_of_try_get_context<C, E, F: FnOnce() -> Result<C, E>>(
    before: Option<C>,
    create: F,
    got: Option<C>,
)
    requires
        fetch_outcome(before, create, got),
    ensures
        creation_cannot_fail(before, create) ==> got is Some,
        got is None ==> before is None && !creation_cannot_fail(before, create),
{
    if got is None {
        assert(before is None);
        let e = choose|e: E| create.ensures((), Err(e));
        assert(create.ensures((), Err::<C, E>(e)));
    }
}

/// An existing context is always given back unchanged, whatever `create`
/// would do; where none exists, a context is given only when `create`
/// produced it, and nothing only when `create` failed.
pub proof fn lemma_existing_context_is_kept<C, E, F: FnOnce() -> Result<C, E>>(
    before: Option<C>,
    create: F,
    got: Option<C>,
)
    requires
        fetch_outcome(before, create, got),
    ensures
        before is Some ==> got == before,
        (before is None && got is Some) ==> create.ensures((), Ok(got->0)),
        (before is None && got is None) ==> exists|e: E| create.ensures((), Err(e)),
{
}

/// An OpenAL context that is created the first time it is asked for and then
/// kept for the life of the process.
pub struct LazyALContext<C>(Option<C>);

impl<C> LazyALContext<C> {
    /// The context, once one has been created.
    pub closed spec fn context(&self) -> Option<C> {
        self.0
    }

    /// No context yet.
    pub fn new() -> (r: Self)
        ensures
            r.context() is None,
    {
        LazyALContext(None)
    }

    /// Makes the context current, creating it first if needed, and returns
    /// what `make_current` returns for it (the guard that keeps it current).
    ///
    /// Creating the context must not fail here: where no context exists yet,
    /// `create` is required to succeed on every outcome.
    pub fn make_al_context_current<'s, E, G, F, H>(&'s mut self, create: F, make_current: H) -> (r: G) where
        F: FnOnce() -> Result<C, E>,
        H: FnOnce(&'s C) -> G,
        requires
            creation_cannot_fail(old(self).context(), create),
            forall|c: &'s C| make_current.requires((c,)),
        ensures
            final(self).context() is Some,
            fetch_outcome(old(self).context(), create, final(self).context()),
            make_current.ensures((&final(self).context()->0,), r),
    {
        let context: &'s mut C = self.get_context(create);
        let shared: &'s C = &*context;
        make_current(shared)
    }

    /// Returns the context, creating it with `create` if none exists yet.
    ///
    /// An existing context is returned as it is and `create` is not called.
    /// Where none exists, `create` is called once: on success its context is
    /// stored and returned; on failure `None` is returned and the state stays
    /// empty, so that a later call tries again.
    pub fn try_get_context<E, F>(&mut self, create: F) -> (r: Option<&mut C>) where
        F: FnOnce() -> Result<C, E>,
        requires
            old(self).context() is None ==> create.requires(()),
        ensures
            fetch_outcome(
                old(self).context(),
                create,
                match r {
                    Some(c) => Some(*c),
                    None => None,
                },
            ),
            final(self).context() == match r {
                Some(c) => Some(*final(c)),
                None => old(self).context(),
            },
    {
        if self.0.is_none() {
            match create() {
                Ok(context) => {
                    self.0 = Some(context);
                },
                Err(_) => {
                    return None;
                },
            }
        }
        self.0.as_mut()
    }

    /// Returns the context, creating it with `create` if none exists yet.
    ///
    /// Where no context exists, `create` is required to succeed on every
    /// outcome: a failed creation leaves nothing to return.
    pub fn get_context<E, F>(&mut self, create: F) -> (r: &mut C) where
        F: FnOnce() -> Result<C, E>,
        requires
            creation_cannot_fail(old(self).context(), create),
        ensures
            fetch_outcome(old(self).context(), create, Some(*r)),
            final(self).context() == Some(*final(r)),
    {
        let ghost before = self.0;
        match self.try_get_context(create) {
            Some(context) => context,
            None => {
                proof {
                    lemma_get_context_is_expect_of_try_get_context(before, create, None);
                }
                unreached()
            },
        }
    }
}

} // verus!
