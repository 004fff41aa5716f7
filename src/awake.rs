use vstd::prelude::*;

use crate::assertion::{AssertionKind, AwakeError, IO_RETURN_SUCCESS};
use crate::options::{Builder, BuilderView};

verus! {

/// What the host must do after [`Awake::set_display`] succeeded.
#[derive(Clone, Copy, Debug, PartialEq, Eq, Structural)]
pub enum DisplayChange {
    /// Nothing: the display setting was already the requested one.
    Unchanged,
    /// Create a display assertion and report it with [`Awake::record_assertion`].
    Acquire,
    /// Release the display assertion with this id.
    Release(u32),
}

/// A guard that holds up to three power-management assertions, one of each
/// [`AssertionKind`]. An assertion id of zero means that none is held.
///
/// The guard makes no system call itself: its operations say which assertion
/// the host must create or release, and the host reports what the system
/// answered. When the guard goes away, the host releases what
/// [`Awake::release_all`] hands back.
pub struct Awake {
    options: Builder,
    display_assertion: u32,
    idle_assertion: u32,
    sleep_assertion: u32,
}

/// The mathematical value of an [`Awake`].
pub struct AwakeView {
    pub options: BuilderView,
    pub display_assertion: u32,
    pub idle_assertion: u32,
    pub sleep_assertion: u32,
}

impl BuilderView {
    /// Whether the configuration asks to prevent sleep of this kind.
    pub open spec fn enabled(self, kind: AssertionKind) -> bool {
        match kind {
            AssertionKind::Display => self.display,
            AssertionKind::Idle => self.idle,
            AssertionKind::Sleep => self.sleep,
        }
    }

    /// The enabled kinds, in the order in which a guard requests them.
    pub open spec fn enabled_kinds(self) -> Seq<AssertionKind> {
        (if self.display { seq![AssertionKind::Display] } else { Seq::empty() })
            + (if self.idle { seq![AssertionKind::Idle] } else { Seq::empty() })
            + (if self.sleep { seq![AssertionKind::Sleep] } else { Seq::empty() })
    }
}

impl AwakeView {
    /// A guard for `options` that holds no assertion.
    pub open spec fn fresh(options: BuilderView) -> AwakeView {
        AwakeView { options, display_assertion: 0, idle_assertion: 0, sleep_assertion: 0 }
    }

    /// The id of the assertion of this kind; zero where none is held.
    pub open spec fn assertion(self, kind: AssertionKind) -> u32 {
        match kind {
            AssertionKind::Display => self.display_assertion,
            AssertionKind::Idle => self.idle_assertion,
            AssertionKind::Sleep => self.sleep_assertion,
        }
    }

    /// Whether an assertion of this kind is held.
    pub open spec fn active(self, kind: AssertionKind) -> bool {
        self.assertion(kind) != 0
    }

    /// This guard with `id` stored as the assertion of `kind`.
    pub open spec fn with_assertion(self, kind: AssertionKind, id: u32) -> AwakeView {
        match kind {
            AssertionKind::Display => AwakeView { display_assertion: id, ..self },
            AssertionKind::Idle => AwakeView { idle_assertion: id, ..self },
            AssertionKind::Sleep => AwakeView { sleep_assertion: id, ..self },
        }
    }

    /// This guard after `ids[i]` was stored as the assertion of `kinds[i]`, for
    /// each `i` in turn.
    pub open spec fn with_assertions(self, kinds: Seq<AssertionKind>, ids: Seq<u32>) -> AwakeView
        decreases kinds.len(),
    {
        if kinds.len() == 0 {
            self
        } else {
            self.with_assertion(kinds[0], ids[0]).with_assertions(kinds.drop_first(), ids.drop_first())
        }
    }

    /// The kinds whose assertion is held, in the order display, idle, sleep.
    pub open spec fn active_kinds(self) -> Seq<AssertionKind> {
        (if self.active(AssertionKind::Display) { seq![AssertionKind::Display] } else { Seq::empty() })
            + (if self.active(AssertionKind::Idle) { seq![AssertionKind::Idle] } else { Seq::empty() })
            + (if self.active(AssertionKind::Sleep) { seq![AssertionKind::Sleep] } else { Seq::empty() })
    }

    /// The ids that must be released to let go of every held assertion.
    pub open spec fn released(self) -> Seq<u32> {
        self.active_kinds().map_values(|kind: AssertionKind| self.assertion(kind))
    }

    /// This guard with no assertion held.
    pub open spec fn cleared(self) -> AwakeView {
        AwakeView { display_assertion: 0, idle_assertion: 0, sleep_assertion: 0, ..self }
    }

    /// What [`Awake::set_display`] returns on this guard.
    pub open spec fn display_change(self, display: bool) -> Result<DisplayChange, AwakeError> {
        if display == self.options.display {
            Ok(DisplayChange::Unchanged)
        } else if display {
            if self.display_assertion == 0 {
                Ok(DisplayChange::Acquire)
            } else {
                Err(AwakeError::Mismatch(AssertionKind::Display))
            }
        } else if self.display_assertion != 0 {
            Ok(DisplayChange::Release(self.display_assertion))
        } else {
            Err(AwakeError::Mismatch(AssertionKind::Display))
        }
    }

    /// This guard after [`Awake::set_display`]: a change of the setting is
    /// kept even where it fails, and turning the display off forgets its
    /// assertion.
    pub open spec fn after_set_display(self, display: bool) -> AwakeView {
        if display == self.options.display {
            self
        } else if display {
            AwakeView { options: BuilderView { display, ..self.options }, ..self }
        } else {
            AwakeView {
                options: BuilderView { display, ..self.options },
                display_assertion: 0,
                ..self
            }
        }
    }

    /// What [`Awake::record_assertion`] returns on this guard.
    pub open spec fn record_result(self, kind: AssertionKind, status: i32) -> Result<(), AwakeError> {
        if self.active(kind) {
            Err(AwakeError::Mismatch(kind))
        } else if status != IO_RETURN_SUCCESS {
            Err(AwakeError::Io(status))
        } else {
            Ok(())
        }
    }
}

impl View for Awake {
    type V = AwakeView;

    closed spec fn view(&self) -> AwakeView {
        AwakeView {
            options: self.options@,
            display_assertion: self.display_assertion,
            idle_assertion: self.idle_assertion,
            sleep_assertion: self.sleep_assertion,
        }
    }
}

impl Awake {
    /// A guard for `options` that holds no assertion yet. The host then
    /// requests the kinds of [`Awake::setup_kinds`] in turn.
    pub fn new(options: Builder) -> (r: Awake)
        ensures
            r@ == AwakeView::fresh(options@),
    {
        Awake { options, display_assertion: 0, idle_assertion: 0, sleep_assertion: 0 }
    }

    /// The kinds that setup must request, in order: each enabled kind once.
    /// Setup stops at the first request that fails; what was created before
    /// it stays held.
    pub fn setup_kinds(&self) -> (r: Vec<AssertionKind>)
        ensures
            r@ == self@.options.enabled_kinds(),
    {
        let mut r: Vec<AssertionKind> = Vec::new();
        if self.options.display {
            r.push(AssertionKind::Display);
        }
        if self.options.idle {
            r.push(AssertionKind::Idle);
        }
        if self.options.sleep {
            r.push(AssertionKind::Sleep);
        }
        proof {
            assert(r@ =~= self@.options.enabled_kinds());
        }
        r
    }

    /// Takes in what the system answered to a request for an assertion of
    /// `kind`: its status and the id it gave. On success the id is stored.
    /// A status other than success is an error that carries it. Where an
    /// assertion of that kind is already held, nothing is stored: that is a
    /// mismatch.
    pub fn record_assertion(&mut self, kind: AssertionKind, status: i32, id: u32) -> (r: Result<(), AwakeError>)
        ensures
            r == old(self)@.record_result(kind, status),
            r is Ok ==> final(self)@ == old(self)@.with_assertion(kind, id),
            r is Err ==> final(self)@ == old(self)@,
    {
        let held = match kind {
            AssertionKind::Display => self.display_assertion,
            AssertionKind::Idle => self.idle_assertion,
            AssertionKind::Sleep => self.sleep_assertion,
        };
        if held != 0 {
            return Err(AwakeError::Mismatch(kind));
        }
        if status != IO_RETURN_SUCCESS {
            return Err(AwakeError::Io(status));
        }
        match kind {
            AssertionKind::Display => self.display_assertion = id,
            AssertionKind::Idle => self.idle_assertion = id,
            AssertionKind::Sleep => self.sleep_assertion = id,
        }
        Ok(())
    }

    /// Turns prevention of display sleep on or off.
    ///
    /// Where the setting already is `display`, nothing changes. Otherwise the
    /// setting becomes `display`, and: turning on asks the host to create a
    /// display assertion, where none is held; turning off hands back the held
    /// display assertion for release and forgets it. A held assertion where
    /// none was expected, or a missing one, is a mismatch.
    pub fn set_display(&mut self, display: bool) -> (r: Result<DisplayChange, AwakeError>)
        ensures
            r == old(self)@.display_change(display),
            final(self)@ == old(self)@.after_set_display(display),
    {
        if self.options.display == display {
            return Ok(DisplayChange::Unchanged);
        }
        self.options.display = display;
        if display {
            if self.display_assertion == 0 {
                Ok(DisplayChange::Acquire)
            } else {
                Err(AwakeError::Mismatch(AssertionKind::Display))
            }
        } else if self.display_assertion != 0 {
            let id = self.display_assertion;
            self.display_assertion = 0;
            Ok(DisplayChange::Release(id))
        } else {
            Err(AwakeError::Mismatch(AssertionKind::Display))
        }
    }

    /// The configuration of this guard, with the display setting as it now is.
    pub fn options(&self) -> (r: &Builder)
        ensures
            r@ == self@.options,
    {
        &self.options
    }

    /// The reason that the host must give for each assertion it creates.
    pub fn reason(&self) -> (r: &str)
        ensures
            r@ == self@.options.reason_or_default(),
    {
        self.options.reason_or_default()
    }

    /// The id of the assertion of `kind` held now; zero where none is held.
    pub fn assertion(&self, kind: AssertionKind) -> (r: u32)
        ensures
            r == self@.assertion(kind),
    {
        match kind {
            AssertionKind::Display => self.display_assertion,
            AssertionKind::Idle => self.idle_assertion,
            AssertionKind::Sleep => self.sleep_assertion,
        }
    }

    /// Hands back the id of every held assertion, display first, then idle,
    /// then sleep, and forgets them: the host releases each id once.
    pub fn release_all(&mut self) -> (r: Vec<u32>)
        ensures
            r@ == old(self)@.released(),
            final(self)@ == old(self)@.cleared(),
    {
        let mut r: Vec<u32> = Vec::new();
        if self.display_assertion != 0 {
            r.push(self.display_assertion);
        }
        if self.idle_assertion != 0 {
            r.push(self.idle_assertion);
        }
        if self.sleep_assertion != 0 {
            r.push(self.sleep_assertion);
        }
        self.display_assertion = 0;
        self.idle_assertion = 0;
        self.sleep_assertion = 0;
        proof {
            assert(r@ =~= old(self)@.released());
        }
        r
    }
}

} // verus!
