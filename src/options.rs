use vstd::prelude::*;

verus! {

/// The reason shown for an assertion when none was configured.
pub const DEFAULT_REASON: &'static str = "User requested";

/// What a guard should keep awake, and why.
#[derive(Clone, Debug, Default)]
pub struct Builder {
    /// Prevent the display from sleeping while the user is idle.
    pub display: bool,
    /// Prevent the system from sleeping while the user is idle.
    pub idle: bool,
    /// Prevent the system from sleeping outright.
    pub sleep: bool,
    /// The reason shown in the system's diagnostics.
    pub reason: Option<String>,
}

/// The mathematical value of a [`Builder`].
pub struct BuilderView {
    pub display: bool,
    pub idle: bool,
    pub sleep: bool,
    pub reason: Option<Seq<char>>,
}

impl BuilderView {
    /// The reason that assertions carry: the configured one, else the default.
    pub open spec fn reason_or_default(self) -> Seq<char> {
        match self.reason {
            Some(r) => r,
            None => DEFAULT_REASON@,
        }
    }
}

impl View for Builder {
    type V = BuilderView;

    open spec fn view(&self) -> BuilderView {
        BuilderView {
            display: self.display,
            idle: self.idle,
            sleep: self.sleep,
            reason: match self.reason {
                Some(r) => Some(r@),
                None => None,
            },
        }
    }
}

impl Builder {
    /// This configuration with display sleep prevented or not.
    pub fn display(self, display: bool) -> (r: Builder)
        ensures
            r@ == (BuilderView { display, ..self@ }),
    {
        Builder { display, ..self }
    }

    /// This configuration with idle system sleep prevented or not.
    pub fn idle(self, idle: bool) -> (r: Builder)
        ensures
            r@ == (BuilderView { idle, ..self@ }),
    {
        Builder { idle, ..self }
    }

    /// This configuration with system sleep prevented or not.
    pub fn sleep(self, sleep: bool) -> (r: Builder)
        ensures
            r@ == (BuilderView { sleep, ..self@ }),
    {
        Builder { sleep, ..self }
    }

    /// This configuration with `reason` as the reason shown for its assertions.
    pub fn reason(self, reason: String) -> (r: Builder)
        ensures
            r@ == (BuilderView { reason: Some(reason@), ..self@ }),
    {
        Builder { reason: Some(reason), ..self }
    }

    /// The reason that assertions carry: the configured one, else the default.
    pub fn reason_or_default(&self) -> (r: &str)
        ensures
            r@ == self@.reason_or_default(),
    {
        match &self.reason {
            Some(r) => r.as_str(),
            None => DEFAULT_REASON,
        }
    }
}

} // verus!
