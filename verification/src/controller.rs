use vstd::prelude::*;

verus! {

/// Why an enable attempt could not start the engine. All three are fatal to
/// that attempt only: the engine stays disabled and the host is told the
/// reason through its unavailability callback.
#[derive(Clone, Copy, PartialEq, Eq, Structural, Debug)]
pub enum StartupError {
    /// No audio input device exists.
    DeviceUnavailable,
    /// The operating system denied microphone access.
    PermissionDenied,
    /// The scoring model could not be loaded.
    ModelLoadError,
}

impl StartupError {
    /// The reason handed to the host's unavailability callback.
    pub open spec fn reason_spec(self) -> Seq<char> {
        match self {
            StartupError::DeviceUnavailable => "no audio input device is available"@,
            StartupError::PermissionDenied => "microphone access was denied"@,
            StartupError::ModelLoadError => "the scoring model could not be loaded"@,
        }
    }

    /// A clear, human-readable reason for this failure.
    pub fn reason(&self) -> (r: &'static str)
        ensures
            r@ == self.reason_spec(),
    {
        match self {
            StartupError::DeviceUnavailable => "no audio input device is available",
            StartupError::PermissionDenied => "microphone access was denied",
            StartupError::ModelLoadError => "the scoring model could not be loaded",
        }
    }
}

/// What one enable call decided.
#[derive(Clone, Copy, PartialEq, Eq, Structural, Debug)]
pub enum EnableOutcome {
    /// The engine was already enabled: a no-op success, nothing new started.
    AlreadyEnabled,
    /// The engine turned on. The host must start the one background pipeline
    /// and hand it this token.
    Started(u64),
    /// Startup failed: the engine stays disabled and the host reports the
    /// reason to the user.
    Unavailable(StartupError),
}

/// Owns the enable/disable lifecycle of the detection engine.
///
/// Each successful enable issues a fresh pipeline token, strictly larger than
/// every token issued before, and makes it the one current token. A pipeline
/// keeps running exactly while `should_continue` holds for its token, so at
/// most one pipeline is ever active: disabling, or enabling anew, makes every
/// older token stale, and the pipeline holding a stale token exits on its
/// next poll, releasing the audio device it holds.
pub struct DetectionController {
    generation: u64,
    current: Option<u64>,
}

impl DetectionController {
    /// How many pipeline tokens have been issued so far; also the value of
    /// the newest token.
    pub closed spec fn generation_spec(self) -> int {
        self.generation as int
    }

    /// The token of the current pipeline, if the engine is enabled.
    pub closed spec fn current_spec(self) -> Option<u64> {
        self.current
    }

    /// Whether detection is enabled.
    pub open spec fn enabled_spec(self) -> bool {
        self.current_spec() is Some
    }

    /// The current token, when one exists, is the newest one issued.
    pub open spec fn wf(self) -> bool {
        match self.current_spec() {
            Some(g) => 1 <= g && g as int == self.generation_spec(),
            None => true,
        }
    }

    /// Whether a pipeline holding this token keeps running.
    pub open spec fn continues_spec(self, pipeline: u64) -> bool {
        self.current_spec() == Some(pipeline)
    }

    /// The state after one enable call with this startup outcome.
    pub closed spec fn enabled_state(self, startup: Result<(), StartupError>)
        -> DetectionController {
        if self.enabled_spec() {
            self
        } else {
            match startup {
                Ok(_) => DetectionController {
                    generation: (self.generation + 1) as u64,
                    current: Some((self.generation + 1) as u64),
                },
                Err(_) => self,
            }
        }
    }

    /// What that enable call reports.
    pub open spec fn enable_outcome_spec(self, startup: Result<(), StartupError>)
        -> EnableOutcome {
        if self.enabled_spec() {
            EnableOutcome::AlreadyEnabled
        } else {
            match startup {
                Ok(_) => EnableOutcome::Started(((self.generation_spec() + 1) as u64)),
                Err(e) => EnableOutcome::Unavailable(e),
            }
        }
    }

    /// The state after a disable call: the engine off, every token stale.
    pub closed spec fn disabled_state(self) -> DetectionController {
        DetectionController { generation: self.generation, current: None }
    }

    /// A controller in the disabled state, with no tokens issued yet.
    pub fn new() -> (c: DetectionController)
        ensures
            c.wf(),
            !c.enabled_spec(),
            c.generation_spec() == 0,
    {
        DetectionController { generation: 0, current: None }
    }

    /// Lock-free read of the lifecycle flag.
    pub fn is_detection_enabled(&self) -> (r: bool)
        ensures
            r == self.enabled_spec(),
    {
        self.current.is_some()
    }

    /// Enables detection. `startup` is the host's attempt to acquire the
    /// audio device and load the scoring model; it is consulted only when the
    /// engine is not already enabled. Idempotent: already enabled, the call
    /// changes nothing and reports so. On a fresh success the engine turns on
    /// and exactly one new pipeline token is issued for the host to start; on
    /// a startup failure the engine stays disabled and the error is handed
    /// back for the host's unavailability callback.
    pub fn enable(&mut self, startup: Result<(), StartupError>) -> (r: EnableOutcome)
        requires
            old(self).wf(),
            old(self).generation_spec() < u64::MAX,
        ensures
            final(self).wf(),
            *final(self) == old(self).enabled_state(startup),
            r == old(self).enable_outcome_spec(startup),
            final(self).enabled_spec() == (old(self).enabled_spec() || startup is Ok),
            old(self).enabled_spec() ==> *final(self) == *old(self)
                && r == EnableOutcome::AlreadyEnabled,
            (r is Started) == (!old(self).enabled_spec() && startup is Ok),
            !old(self).enabled_spec() && startup is Err ==> *final(self) == *old(self),
            final(self).generation_spec() >= old(self).generation_spec(),
    {
        if self.current.is_some() {
            EnableOutcome::AlreadyEnabled
        } else {
            match startup {
                Ok(_) => {
                    let g = self.generation + 1;
                    self.generation = g;
                    self.current = Some(g);
                    EnableOutcome::Started(g)
                },
                Err(e) => EnableOutcome::Unavailable(e),
            }
        }
    }

    /// Disables detection: marks the state disabled and withdraws the current
    /// token. It returns immediately; the background pipeline observes the
    /// stale token on its next poll, exits, and releases the audio device.
    /// Reports whether the engine had been enabled.
    pub fn disable(&mut self) -> (was: bool)
        requires
            old(self).wf(),
        ensures
            final(self).wf(),
            *final(self) == old(self).disabled_state(),
            !final(self).enabled_spec(),
            final(self).generation_spec() == old(self).generation_spec(),
            was == old(self).enabled_spec(),
    {
        let was = self.current.is_some();
        self.current = None;
        was
    }

    /// The decision the background pipeline polls between work units: it
    /// keeps running exactly while its token is the current one.
    pub fn should_continue(&self, pipeline: u64) -> (r: bool)
        ensures
            r == self.continues_spec(pipeline),
    {
        match self.current {
            Some(g) => g == pipeline,
            None => false,
        }
    }
}

/// Idempotence of enabling: two enable calls in a row, with no disable in
/// between, start exactly one pipeline. Whenever the first call starts one,
/// the second reports the engine already enabled and leaves the state, and so
/// the one current token, untouched — whatever its startup outcome.
pub proof fn lemma_enable_idempotent(
    c: DetectionController,
    s1: Result<(), StartupError>,
    s2: Result<(), StartupError>,
)
    requires
        c.wf(),
        c.generation_spec() < u64::MAX,
    ensures
        !c.enabled_spec() && s1 is Ok ==> c.enable_outcome_spec(s1) is Started,
        c.enable_outcome_spec(s1) is Started ==> c.enabled_state(s1).enable_outcome_spec(s2)
            == EnableOutcome::AlreadyEnabled,
        c.enable_outcome_spec(s1) is Started ==> c.enabled_state(s1).enabled_state(s2)
            == c.enabled_state(s1),
{
}

/// Disable followed immediately by enable yields exactly one live pipeline:
/// the newly started one. Tokens are issued in increasing order, so every
/// token issued before the disable is at most the old generation; for each of
/// them `should_continue` is false afterwards, and the pipeline holding it
/// exits on its next poll and releases its audio device. Only the one fresh
/// token continues.
pub proof fn lemma_disable_then_enable_single_pipeline(c: DetectionController, stale: u64)
    requires
        c.wf(),
        c.generation_spec() < u64::MAX,
        stale as int <= c.generation_spec(),
    ensures
        c.disabled_state().enable_outcome_spec(Ok(()))
            == EnableOutcome::Started(((c.generation_spec() + 1) as u64)),
        c.disabled_state().enabled_state(Ok(())).continues_spec(
            ((c.generation_spec() + 1) as u64)),
        !c.disabled_state().enabled_state(Ok(())).continues_spec(stale),
        forall|p: u64| c.disabled_state().enabled_state(Ok(())).continues_spec(p)
            ==> p as int == c.generation_spec() + 1,
{
}

} // verus!
