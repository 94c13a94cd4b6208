//! Power: the battery, the external supply, and the locks that keep the device awake while its
//! display is lit.
use vstd::prelude::*;

verus! {

pub const ESP_OK: i32 = 0;

#[derive(Clone, Copy, Debug, PartialEq, Eq, Structural)]
pub struct PmuStatus {
    pub status1: u8,
    pub status2: u8,
}

/// Whether a return code stands for success; otherwise the code is the failure.
pub fn esp_err(code: i32) -> (r: Result<(), i32>)
    ensures
        code == 0 ==> r == Ok::<(), i32>(()),
        code != 0 ==> r == Err::<(), i32>(code),
{
    if code == ESP_OK {
        Ok(())
    } else {
        Err(code)
    }
}

/// The battery's charge from what the power unit reports, if that is a percentage.
pub open spec fn percent_of(reported: i32) -> Option<u8> {
    if 0 <= reported <= 100 {
        Some(reported as u8)
    } else {
        None
    }
}

/// The battery's charge from what the power unit reports, if that is a percentage.
pub fn battery_percent(reported: i32) -> (r: Option<u8>)
    ensures
        r == percent_of(reported),
{
    if 0 <= reported && reported <= 100 {
        Some(reported as u8)
    } else {
        None
    }
}

/// The status of the power unit from what its two registers report, if both are bytes.
pub fn pmu_status(status1: i32, status2: i32) -> (r: Option<PmuStatus>)
    ensures
        r == (if 0 <= status1 <= 255 && 0 <= status2 <= 255 {
            Some(PmuStatus { status1: status1 as u8, status2: status2 as u8 })
        } else {
            None
        }),
{
    if 0 <= status1 && status1 <= 255 && 0 <= status2 && status2 <= 255 {
        Some(PmuStatus { status1: status1 as u8, status2: status2 as u8 })
    } else {
        None
    }
}

/// Whether a status says that external power is there: its sixth bit.
pub open spec fn has_external_power(status: PmuStatus) -> bool {
    status.status1 as int / 32 % 2 == 1
}

fn external_power(status: PmuStatus) -> (r: bool)
    ensures
        r == has_external_power(status),
{
    status.status1 / 32 % 2 == 1
}

/// Whether external power is there, where the status is known.
pub fn external_power_connected(status: Option<PmuStatus>) -> (r: Option<bool>)
    ensures
        r == (match status {
            Some(s) => Some(has_external_power(s)),
            None => None,
        }),
{
    match status {
        Some(s) => Some(external_power(s)),
        None => None,
    }
}

/// The locks that keep the device awake.
#[derive(Clone, Copy, Debug, PartialEq, Eq, Structural)]
pub enum PowerLock {
    /// Against light sleep.
    Display,
    /// For the full bus frequency.
    DisplayApb,
}

/// One step of holding the locks or letting them go.
#[derive(Clone, Copy, Debug, PartialEq, Eq, Structural)]
pub enum LockStep {
    Create(PowerLock),
    Acquire(PowerLock),
    Release(PowerLock),
    /// Undoes an acquired lock, whatever comes of it.
    Undo(PowerLock),
}

/// What follows in holding the locks or letting them go.
#[derive(Clone, Copy, Debug, PartialEq, Eq, Structural)]
pub enum LockNext {
    Do(LockStep),
    Done,
    /// The step failed with this code.
    Failed(LockStep, i32),
}

/// The locks: whether they are taken to be held, and which of them exist.
#[derive(Clone, Copy, Debug)]
pub struct PowerLocks {
    pub held: bool,
    pub has_display: bool,
    pub has_apb: bool,
    /// The first failure while the locks are let go.
    pub first_error: Option<(LockStep, i32)>,
}

impl PowerLocks {
    /// No lock exists.
    pub fn new() -> (r: Self)
        ensures
            r == (PowerLocks {
                held: false,
                has_display: false,
                has_apb: false,
                first_error: None,
            }),
    {
        PowerLocks { held: false, has_display: false, has_apb: false, first_error: None }
    }

    /// What follows in holding the locks, where `last` is the last step with its code.
    pub open spec fn hold_next(self, last: Option<(LockStep, i32)>) -> LockNext {
        match last {
            None => if self.held {
                LockNext::Done
            } else if self.has_display {
                LockNext::Do(LockStep::Acquire(PowerLock::Display))
            } else {
                LockNext::Do(LockStep::Create(PowerLock::Display))
            },
            Some((LockStep::Undo(_), code)) => LockNext::Failed(
                LockStep::Acquire(PowerLock::DisplayApb),
                code,
            ),
            Some((LockStep::Create(lock), code)) => if code != 0 {
                LockNext::Failed(LockStep::Create(lock), code)
            } else {
                LockNext::Do(LockStep::Acquire(lock))
            },
            Some((LockStep::Acquire(PowerLock::Display), code)) => if code != 0 {
                LockNext::Failed(LockStep::Acquire(PowerLock::Display), code)
            } else if self.has_apb {
                LockNext::Do(LockStep::Acquire(PowerLock::DisplayApb))
            } else {
                LockNext::Do(LockStep::Create(PowerLock::DisplayApb))
            },
            Some((LockStep::Acquire(PowerLock::DisplayApb), code)) => if code != 0 {
                LockNext::Do(LockStep::Undo(PowerLock::Display))
            } else {
                LockNext::Done
            },
            Some((step, code)) => LockNext::Failed(step, code),
        }
    }

    /// The locks after a step of holding them.
    pub open spec fn after_hold(self, last: Option<(LockStep, i32)>) -> Self {
        match last {
            None => PowerLocks { held: true, ..self },
            Some((LockStep::Create(PowerLock::Display), 0)) => PowerLocks {
                has_display: true,
                ..self
            },
            Some((LockStep::Create(PowerLock::DisplayApb), 0)) => PowerLocks {
                has_apb: true,
                ..self
            },
            Some((LockStep::Acquire(_), code)) => PowerLocks {
                held: self.held && code == 0,
                ..self
            },
            _ => self,
        }
    }

    /// Carries on holding the locks: each is made where it does not exist yet, then acquired;
    /// where the second cannot be acquired, the first is undone. To be started with no last
    /// step. After an undone lock the code is that of the acquisition that failed.
    pub fn hold_light_sleep_lock(&mut self, last: Option<(LockStep, i32)>) -> (r: LockNext)
        ensures
            r == old(self).hold_next(last),
            *final(self) == old(self).after_hold(last),
    {
        match last {
            None => {
                if self.held {
                    return LockNext::Done;
                }
                self.held = true;
                if self.has_display {
                    LockNext::Do(LockStep::Acquire(PowerLock::Display))
                } else {
                    LockNext::Do(LockStep::Create(PowerLock::Display))
                }
            },
            Some((step, code)) => match step {
                LockStep::Undo(_) => LockNext::Failed(
                    LockStep::Acquire(PowerLock::DisplayApb),
                    code,
                ),
                LockStep::Create(lock) => {
                    if code != ESP_OK {
                        return LockNext::Failed(step, code);
                    }
                    match lock {
                        PowerLock::Display => {
                            self.has_display = true;
                        },
                        PowerLock::DisplayApb => {
                            self.has_apb = true;
                        },
                    }
                    LockNext::Do(LockStep::Acquire(lock))
                },
                LockStep::Acquire(lock) => {
                    if code != ESP_OK {
                        self.held = false;
                        return match lock {
                            PowerLock::Display => LockNext::Failed(step, code),
                            PowerLock::DisplayApb => LockNext::Do(
                                LockStep::Undo(PowerLock::Display),
                            ),
                        };
                    }
                    match lock {
                        PowerLock::Display => if self.has_apb {
                            LockNext::Do(LockStep::Acquire(PowerLock::DisplayApb))
                        } else {
                            LockNext::Do(LockStep::Create(PowerLock::DisplayApb))
                        },
                        PowerLock::DisplayApb => LockNext::Done,
                    }
                },
                LockStep::Release(_) => LockNext::Failed(step, code),
            },
        }
    }

    /// Whether the locks stay held: external power is there.
    pub open spec fn stays_held(self, status: Option<PmuStatus>) -> bool {
        self.held && (status matches Some(s) && has_external_power(s))
    }

    /// What the locks come to once none is left to let go: a failure holds them again.
    pub open spec fn release_end(self) -> (Self, LockNext) {
        match self.first_error {
            Some((step, code)) => (
                PowerLocks { held: true, first_error: None, ..self },
                LockNext::Failed(step, code),
            ),
            None => (self, LockNext::Done),
        }
    }

    /// The locks, and what follows, in letting them go, where `last` is the last step with its
    /// code.
    pub open spec fn release_next(
        self,
        status: Option<PmuStatus>,
        last: Option<(LockStep, i32)>,
    ) -> (Self, LockNext) {
        match last {
            None => if self.stays_held(status) || !self.held {
                (self, LockNext::Done)
            } else {
                let let_go = PowerLocks { held: false, first_error: None, ..self };
                if self.has_apb {
                    (let_go, LockNext::Do(LockStep::Release(PowerLock::DisplayApb)))
                } else if self.has_display {
                    (let_go, LockNext::Do(LockStep::Release(PowerLock::Display)))
                } else {
                    let_go.release_end()
                }
            },
            Some((step, code)) => {
                let noted = PowerLocks {
                    first_error: if code != 0 && self.first_error is None {
                        Some((step, code))
                    } else {
                        self.first_error
                    },
                    ..self
                };
                if step == LockStep::Release(PowerLock::DisplayApb) && self.has_display {
                    (noted, LockNext::Do(LockStep::Release(PowerLock::Display)))
                } else {
                    noted.release_end()
                }
            },
        }
    }

    fn finish_release(&mut self) -> (r: LockNext)
        ensures
            (*final(self), r) == old(self).release_end(),
    {
        match self.first_error {
            Some((step, code)) => {
                self.held = true;
                self.first_error = None;
                LockNext::Failed(step, code)
            },
            None => LockNext::Done,
        }
    }

    /// Carries on letting the locks go, unless external power is there: each that exists, the
    /// later one first. The first failure counts, and the locks are then taken to be held
    /// again. To be started with no last step.
    pub fn release_light_sleep_lock(
        &mut self,
        status: Option<PmuStatus>,
        last: Option<(LockStep, i32)>,
    ) -> (r: LockNext)
        ensures
            (*final(self), r) == old(self).release_next(status, last),
    {
        match last {
            None => {
                if self.held {
                    if let Some(s) = status {
                        if external_power(s) {
                            return LockNext::Done;
                        }
                    }
                }
                if !self.held {
                    return LockNext::Done;
                }
                self.held = false;
                self.first_error = None;
                if self.has_apb {
                    LockNext::Do(LockStep::Release(PowerLock::DisplayApb))
                } else if self.has_display {
                    LockNext::Do(LockStep::Release(PowerLock::Display))
                } else {
                    self.finish_release()
                }
            },
            Some((step, code)) => {
                if code != ESP_OK && self.first_error.is_none() {
                    self.first_error = Some((step, code));
                }
                if step == LockStep::Release(PowerLock::DisplayApb) && self.has_display {
                    LockNext::Do(LockStep::Release(PowerLock::Display))
                } else {
                    self.finish_release()
                }
            },
        }
    }
}

/// While external power is there, held locks stay held, and nothing is done about them.
pub proof fn law_external_power_keeps_locks(s: PowerLocks, status: PmuStatus)
    requires
        s.held,
        has_external_power(status),
    ensures
        s.release_next(Some(status), None) == (s, LockNext::Done),
{
}

/// Locks that could not be let go count as held, so that letting them go is tried again.
pub proof fn law_failed_release_holds_again(
    s: PowerLocks,
    status: Option<PmuStatus>,
    last: (LockStep, i32),
)
    requires
        s.release_next(status, Some(last)).1 is Failed,
    ensures
        s.release_next(status, Some(last)).0.held,
{
}

/// Holding locks that exist or can be made takes the one against sleep first and the one for the
/// bus after it, each made before it is acquired where it does not exist; once both are
/// acquired they are held, and holding them again does nothing.
pub proof fn law_locks_are_acquired_in_order(s: PowerLocks)
    requires
        !s.held,
    ensures
        ({
            let a = s.after_hold(None);
            let made = a.after_hold(Some((LockStep::Create(PowerLock::Display), 0)));
            let b = made.after_hold(Some((LockStep::Acquire(PowerLock::Display), 0)));
            let made_b = b.after_hold(Some((LockStep::Create(PowerLock::DisplayApb), 0)));
            let c = made_b.after_hold(Some((LockStep::Acquire(PowerLock::DisplayApb), 0)));
            &&& s.hold_next(None) == LockNext::Do(
                if s.has_display {
                    LockStep::Acquire(PowerLock::Display)
                } else {
                    LockStep::Create(PowerLock::Display)
                },
            )
            &&& a.hold_next(Some((LockStep::Create(PowerLock::Display), 0))) == LockNext::Do(
                LockStep::Acquire(PowerLock::Display),
            )
            &&& made.has_display
            &&& made.hold_next(Some((LockStep::Acquire(PowerLock::Display), 0))) == LockNext::Do(
                if s.has_apb {
                    LockStep::Acquire(PowerLock::DisplayApb)
                } else {
                    LockStep::Create(PowerLock::DisplayApb)
                },
            )
            &&& b.hold_next(Some((LockStep::Create(PowerLock::DisplayApb), 0))) == LockNext::Do(
                LockStep::Acquire(PowerLock::DisplayApb),
            )
            &&& made_b.has_apb
            &&& made_b.hold_next(Some((LockStep::Acquire(PowerLock::DisplayApb), 0)))
                == LockNext::Done
            &&& c.held && c.hold_next(None) == LockNext::Done
        }),
{
}

/// A lock that cannot be acquired leaves the locks not held; where it is the second one, the
/// first is undone before the failure is reported.
pub proof fn law_failed_acquisition_is_undone(s: PowerLocks, code: i32, undone: i32)
    requires
        code != 0,
    ensures
        s.hold_next(Some((LockStep::Acquire(PowerLock::Display), code))) is Failed,
        s.hold_next(Some((LockStep::Acquire(PowerLock::DisplayApb), code))) == LockNext::Do(
            LockStep::Undo(PowerLock::Display),
        ),
        s.hold_next(Some((LockStep::Undo(PowerLock::Display), undone))) is Failed,
        !s.after_hold(Some((LockStep::Acquire(PowerLock::Display), code))).held,
        !s.after_hold(Some((LockStep::Acquire(PowerLock::DisplayApb), code))).held,
        s.hold_next(Some((LockStep::Create(PowerLock::Display), code))) is Failed,
{
}

/// Letting the locks go releases each that exists, the later one first; once both are released
/// they are not held, and letting them go again does nothing.
pub proof fn law_locks_are_released_in_reverse(s: PowerLocks, status: Option<PmuStatus>)
    requires
        s.held,
        s.has_display,
        s.has_apb,
        status matches Some(p) ==> !has_external_power(p),
    ensures
        ({
            let (a, first) = s.release_next(status, None);
            let (b, second) = a.release_next(
                status,
                Some((LockStep::Release(PowerLock::DisplayApb), 0)),
            );
            let (c, third) = b.release_next(
                status,
                Some((LockStep::Release(PowerLock::Display), 0)),
            );
            &&& first == LockNext::Do(LockStep::Release(PowerLock::DisplayApb))
            &&& second == LockNext::Do(LockStep::Release(PowerLock::Display))
            &&& third == LockNext::Done
            &&& !c.held && c.has_display && c.has_apb
            &&& c.release_next(status, None) == (c, LockNext::Done)
        }),
{
}

/// External power is one bit of the first status byte: the status with that bit turned over
/// says the opposite, and no other bit matters.
pub proof fn law_external_power_is_one_bit(status: PmuStatus, other: u8)
    requires
        status.status1 % 64 / 32 == other % 64 / 32,
    ensures
        has_external_power(status) == has_external_power(
            PmuStatus { status1: other, status2: 0 },
        ),
        has_external_power(PmuStatus { status1: 32, status2: 0 }),
        !has_external_power(PmuStatus { status1: 223, status2: 255 }),
{
}

/// The battery's charge is what the power unit reports, from nothing to a hundred percent; any
/// other report is none.
pub proof fn law_charge_is_a_percentage(reported: i32)
    ensures
        percent_of(reported) is Some <==> 0 <= reported <= 100,
        percent_of(reported) matches Some(p) ==> p == reported,
{
}

} // verus!
