//! Decisions of the D-Bus watchers that track screensaver inhibitors.
use crate::text::str_equals;
use vstd::prelude::*;

verus! {

/// Cookie handed to the first external inhibitor.
pub const FIRST_EXTERNAL_COOKIE: u32 = 10000;

/// What to do with an external `org.freedesktop.ScreenSaver` / `org.gnome.ScreenSaver` call.
#[derive(Clone, Debug, PartialEq, Eq)]
pub enum InhibitAction {
    /// Record an inhibitor for `sender` under `cookie`.
    Add { app: String, reason: String, sender: String, cookie: u32 },
    /// Drop the inhibitor `cookie` of `sender`.
    Remove { cookie: u32, sender: String },
    /// Nothing to do.
    Ignore,
}

/// Issues cookies to external inhibitors, one after the other.
#[derive(Clone, Copy, Debug, PartialEq, Eq)]
pub struct ExternalInhibitTracker {
    pub next_cookie: u32,
}

/// `x + n` wrapped to 32 bits.
pub open spec fn wrapping_add_u32(x: u32, n: int) -> u32 {
    ((x + n) % 0x1_0000_0000int) as u32
}

/// The action for a method call `member` from `sender`. `inhibit_args` and
/// `uninhibit_args` are the message body read as `(app, reason)` and as a
/// cookie, when it reads as such.
pub open spec fn inhibit_action_for(
    next_cookie: u32,
    member: Option<Seq<char>>,
    sender: Option<String>,
    inhibit_args: Option<(String, String)>,
    uninhibit_args: Option<u32>,
) -> InhibitAction {
    if member is None || sender is None {
        InhibitAction::Ignore
    } else if member->Some_0 == "Inhibit"@ {
        match inhibit_args {
            Some((app, reason)) => InhibitAction::Add { app, reason, sender: sender->Some_0, cookie: next_cookie },
            None => InhibitAction::Ignore,
        }
    } else if member->Some_0 == "UnInhibit"@ {
        match uninhibit_args {
            Some(cookie) => InhibitAction::Remove { cookie, sender: sender->Some_0 },
            None => InhibitAction::Ignore,
        }
    } else {
        InhibitAction::Ignore
    }
}

impl ExternalInhibitTracker {
    pub fn new() -> (t: Self)
        ensures
            t.next_cookie == FIRST_EXTERNAL_COOKIE,
    {
        ExternalInhibitTracker { next_cookie: FIRST_EXTERNAL_COOKIE }
    }

    /// Decides what an intercepted call does; an accepted `Inhibit` takes
    /// the next cookie, and the counter wraps around at `u32::MAX`.
    pub fn on_method_call(
        &mut self,
        member: Option<&str>,
        sender: Option<String>,
        inhibit_args: Option<(String, String)>,
        uninhibit_args: Option<u32>,
    ) -> (a: InhibitAction)
        ensures
            a == inhibit_action_for(
                old(self).next_cookie,
                match member { Some(m) => Some(m@), None => None },
                sender,
                inhibit_args,
                uninhibit_args,
            ),
            a is Add ==> final(self).next_cookie == wrapping_add_u32(old(self).next_cookie, 1),
            !(a is Add) ==> final(self).next_cookie == old(self).next_cookie,
    {
        let m = match member {
            Some(m) => m,
            None => return InhibitAction::Ignore,
        };
        let sender = match sender {
            Some(s) => s,
            None => return InhibitAction::Ignore,
        };
        if str_equals(m, "Inhibit") {
            match inhibit_args {
                Some((app, reason)) => {
                    let cookie = self.next_cookie;
                    self.next_cookie = self.next_cookie.wrapping_add(1);
                    InhibitAction::Add { app, reason, sender, cookie }
                },
                None => InhibitAction::Ignore,
            }
        } else if str_equals(m, "UnInhibit") {
            match uninhibit_args {
                Some(cookie) => InhibitAction::Remove { cookie, sender },
                None => InhibitAction::Ignore,
            }
        } else {
            InhibitAction::Ignore
        }
    }
}

/// The client to forget when a bus name changes owner: only a unique name
/// that lost its owner.
pub fn client_to_forget(name: String, name_is_unique: bool, new_owner_present: bool) -> (r: Option<String>)
    ensures
        r == (if !new_owner_present && name_is_unique {
            Some(name)
        } else {
            None
        }),
{
    if new_owner_present {
        return None;
    }
    if !name_is_unique {
        return None;
    }
    Some(name)
}

/// The `k`-th cookie issued from `start` is `start + k` wrapped, so any
/// 2^32 consecutive cookies are pairwise distinct.
pub proof fn lemma_cookies_distinct(start: u32, i: nat, j: nat)
    requires
        i < j < 0x1_0000_0000,
    ensures
        wrapping_add_u32(start, i as int) != wrapping_add_u32(start, j as int),
{
    let m = 0x1_0000_0000int;
    let a = start + i;
    let b = start + j;
    if a % m == b % m {
        vstd::arithmetic::div_mod::lemma_fundamental_div_mod(a, m);
        vstd::arithmetic::div_mod::lemma_fundamental_div_mod(b, m);
        assert(b - a == m * (b / m - a / m)) by (nonlinear_arith)
            requires
                a == m * (a / m) + a % m,
                b == m * (b / m) + b % m,
                a % m == b % m,
        ;
        assert(false) by (nonlinear_arith)
            requires
                b - a == m * (b / m - a / m),
                0 < b - a < m,
                m > 0,
        ;
    }
}

/// Issuing one cookie after another advances the counter by one each time.
pub proof fn lemma_wrapping_steps(start: u32, k: nat)
    ensures
        wrapping_add_u32(wrapping_add_u32(start, k as int), 1) == wrapping_add_u32(start, (k + 1) as int),
{
    let m = 0x1_0000_0000int;
    vstd::arithmetic::div_mod::lemma_add_mod_noop(start + k, 1, m);
    vstd::arithmetic::div_mod::lemma_mod_bound(start + k, m);
    vstd::arithmetic::div_mod::lemma_small_mod(1, m as nat);
}

} // verus!
