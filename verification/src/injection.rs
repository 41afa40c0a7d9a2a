//! Text delivery policy: clipboard paste, simulated typing, and the hybrid
//! fallback from the first to the second.
//!
//! The clipboard, the keyboard synthesiser and the delays live outside the
//! library.  [`TextInjector`] plans each delivery as an exact sequence of
//! steps, and decides from the configured method and the observed outcome of
//! an attempt what runs next and what the caller is told.

use vstd::prelude::*;

use crate::config::{InjectionConfig, InjectionMethod};
use crate::error::AppError;

verus! {

/// One step of a clipboard delivery, in the order the caller performs them.
pub enum ClipboardStep {
    /// Read the current clipboard so it can be restored afterwards.
    BackupClipboard,
    /// Write the payload to the clipboard.
    SetClipboard(String),
    /// Wait the given number of milliseconds.
    Sleep(u64),
    /// Press the platform paste modifier.
    PressModifier,
    /// Click the paste key under the held modifier.
    ClickPasteKey,
    /// Release the paste modifier.
    ReleaseModifier,
    /// Write the backed-up contents back to the clipboard.
    RestoreClipboard,
}

/// One step of a typing delivery: click the key for `ch`, then wait
/// `delay_ms` milliseconds.
pub struct TypeStep {
    pub ch: char,
    pub delay_ms: u64,
}

/// One delivery attempt, carrying the payload it must deliver.
pub enum InjectAttempt {
    ViaClipboard(String),
    ViaTyping(String),
}

/// The contract of the fallback decision: only the hybrid method retries,
/// via typing, with the unmodified payload.
pub open spec fn spec_fallback_contract(
    cfg: InjectionConfig,
    text: Seq<char>,
    r: Option<InjectAttempt>,
) -> bool {
    &&& (cfg.method is Hybrid ==> (r matches Some(a) && a matches InjectAttempt::ViaTyping(t)
        && t@ == text))
    &&& (!(cfg.method is Hybrid) ==> r is None)
}

/// The contract of a whole injection: which attempt outcome the caller's
/// result mirrors, for each configured method.
pub open spec fn spec_inject_contract(
    cfg: InjectionConfig,
    clipboard_outcome: Result<(), String>,
    typing_outcome: Result<(), String>,
    r: Result<(), AppError>,
) -> bool {
    &&& (cfg.method is Clipboard ==> ({
        &&& (clipboard_outcome is Ok <==> r is Ok)
        &&& (clipboard_outcome matches Err(m) ==> (r matches Err(e)
            && e matches AppError::TextInjection(em) && em@ == m@))
    }))
    &&& (cfg.method is Typing ==> ({
        &&& (typing_outcome is Ok <==> r is Ok)
        &&& (typing_outcome matches Err(m) ==> (r matches Err(e)
            && e matches AppError::TextInjection(em) && em@ == m@))
    }))
    &&& (cfg.method is Hybrid ==> ({
        &&& (clipboard_outcome is Ok ==> r is Ok)
        &&& (clipboard_outcome is Err ==> ({
            &&& (typing_outcome is Ok <==> r is Ok)
            &&& (typing_outcome matches Err(m) ==> (r matches Err(e)
                && e matches AppError::TextInjection(em) && em@ == m@))
        }))
    }))
}

/// The delivery planner for one configuration.
pub struct TextInjector {
    config: InjectionConfig,
}

impl TextInjector {
    /// The configuration the planner follows.
    pub closed spec fn spec_config(self) -> InjectionConfig {
        self.config
    }

    /// A planner for the given configuration.  The keyboard synthesiser it
    /// plans for is the caller's to open.
    pub fn new(config: &InjectionConfig) -> (r: Self)
        ensures
            r.spec_config() == *config,
    {
        TextInjector { config: *config }
    }

    /// The first delivery attempt for a payload: clipboard for the clipboard
    /// and hybrid methods, typing for the typing method.
    pub fn first_attempt(&self, text: &str) -> (r: InjectAttempt)
        ensures
            (self.spec_config().method is Clipboard || self.spec_config().method is Hybrid)
                ==> (r matches InjectAttempt::ViaClipboard(t) && t@ == text@),
            self.spec_config().method is Typing
                ==> (r matches InjectAttempt::ViaTyping(t) && t@ == text@),
    {
        match self.config.method {
            InjectionMethod::Clipboard => InjectAttempt::ViaClipboard(text.to_owned()),
            InjectionMethod::Hybrid => InjectAttempt::ViaClipboard(text.to_owned()),
            InjectionMethod::Typing => InjectAttempt::ViaTyping(text.to_owned()),
        }
    }

    /// What runs after a failed clipboard attempt: the hybrid method retries
    /// by typing the unmodified payload; the other methods give up.
    pub fn fallback_after_clipboard_failure(&self, text: &str) -> (r: Option<InjectAttempt>)
        ensures
            spec_fallback_contract(self.spec_config(), text@, r),
    {
        match self.config.method {
            InjectionMethod::Hybrid => Some(InjectAttempt::ViaTyping(text.to_owned())),
            InjectionMethod::Clipboard => None,
            InjectionMethod::Typing => None,
        }
    }

    /// The result handed to the caller once the attempts are over, given the
    /// observed outcome of each attempt that the method performs.  Outcomes of
    /// attempts the method never performs are ignored.
    pub fn inject_text(
        &self,
        clipboard_outcome: Result<(), String>,
        typing_outcome: Result<(), String>,
    ) -> (r: Result<(), AppError>)
        ensures
            spec_inject_contract(self.spec_config(), clipboard_outcome, typing_outcome, r),
    {
        match self.config.method {
            InjectionMethod::Clipboard => match clipboard_outcome {
                Ok(()) => Ok(()),
                Err(m) => Err(AppError::TextInjection(m)),
            },
            InjectionMethod::Typing => match typing_outcome {
                Ok(()) => Ok(()),
                Err(m) => Err(AppError::TextInjection(m)),
            },
            InjectionMethod::Hybrid => match clipboard_outcome {
                Ok(()) => Ok(()),
                Err(_) => match typing_outcome {
                    Ok(()) => Ok(()),
                    Err(m) => Err(AppError::TextInjection(m)),
                },
            },
        }
    }

    /// The exact step sequence of one clipboard delivery: an optional backup,
    /// the payload onto the clipboard, a settle delay, the paste shortcut
    /// with a delay after each key event, a wait for the paste to land, and
    /// the restore when a backup was planned.
    pub fn clipboard_steps(&self, text: &str) -> (r: Vec<ClipboardStep>)
        ensures
            self.spec_config().clipboard_backup ==> ({
                &&& r@.len() == 10
                &&& r@[0] is BackupClipboard
                &&& (r@[1] matches ClipboardStep::SetClipboard(t) && t@ == text@)
                &&& r@[2] == ClipboardStep::Sleep(50u64)
                &&& r@[3] is PressModifier
                &&& r@[4] == ClipboardStep::Sleep(50u64)
                &&& r@[5] is ClickPasteKey
                &&& r@[6] == ClipboardStep::Sleep(50u64)
                &&& r@[7] is ReleaseModifier
                &&& r@[8] == ClipboardStep::Sleep(100u64)
                &&& r@[9] is RestoreClipboard
            }),
            !self.spec_config().clipboard_backup ==> ({
                &&& r@.len() == 9
                &&& (r@[0] matches ClipboardStep::SetClipboard(t) && t@ == text@)
                &&& r@[1] == ClipboardStep::Sleep(50u64)
                &&& r@[2] is PressModifier
                &&& r@[3] == ClipboardStep::Sleep(50u64)
                &&& r@[4] is ClickPasteKey
                &&& r@[5] == ClipboardStep::Sleep(50u64)
                &&& r@[6] is ReleaseModifier
                &&& r@[7] == ClipboardStep::Sleep(100u64)
                &&& r@[8] is RestoreClipboard
            }),
    {
        let mut steps: Vec<ClipboardStep> = Vec::new();
        if self.config.clipboard_backup {
            steps.push(ClipboardStep::BackupClipboard);
        }
        steps.push(ClipboardStep::SetClipboard(text.to_owned()));
        steps.push(ClipboardStep::Sleep(50));
        steps.push(ClipboardStep::PressModifier);
        steps.push(ClipboardStep::Sleep(50));
        steps.push(ClipboardStep::ClickPasteKey);
        steps.push(ClipboardStep::Sleep(50));
        steps.push(ClipboardStep::ReleaseModifier);
        steps.push(ClipboardStep::Sleep(100));
        steps.push(ClipboardStep::RestoreClipboard);
        steps
    }

    /// The exact step sequence of one typing delivery: one key click per
    /// character of the payload, in order, each followed by the configured
    /// per-character delay.
    pub fn typing_steps(&self, text: &str) -> (r: Vec<TypeStep>)
        ensures
            r@.len() == text@.len(),
            forall|i: int| #![trigger r@[i]] 0 <= i < r@.len()
                ==> r@[i].ch == text@[i] && r@[i].delay_ms == self.spec_config().typing_speed_ms,
    {
        let n: usize = text.unicode_len();
        let mut steps: Vec<TypeStep> = Vec::new();
        let mut i: usize = 0;
        while i < n
            invariant
                0 <= i <= n,
                n == text@.len(),
                steps@.len() == i,
                forall|j: int| #![trigger steps@[j]] 0 <= j < i
                    ==> steps@[j].ch == text@[j] && steps@[j].delay_ms == self.config.typing_speed_ms,
            decreases n - i,
        {
            let c = text.get_char(i);
            steps.push(TypeStep { ch: c, delay_ms: self.config.typing_speed_ms });
            i += 1;
        }
        steps
    }
}

/// Law: under the hybrid policy, a failed clipboard attempt is retried by
/// typing the full, unmodified payload.
pub proof fn lemma_hybrid_fallback_preserves_text(
    cfg: InjectionConfig,
    text: Seq<char>,
    r: Option<InjectAttempt>,
)
    requires
        spec_fallback_contract(cfg, text, r),
        cfg.method is Hybrid,
    ensures
        r matches Some(a) && a matches InjectAttempt::ViaTyping(t) && t@ == text,
{
}

/// Law: under the hybrid policy, when the clipboard attempt fails and the
/// typing attempt succeeds, the caller is told the injection succeeded.
pub proof fn lemma_hybrid_clipboard_failure_typing_success(
    cfg: InjectionConfig,
    clipboard_outcome: Result<(), String>,
    typing_outcome: Result<(), String>,
    r: Result<(), AppError>,
)
    requires
        spec_inject_contract(cfg, clipboard_outcome, typing_outcome, r),
        cfg.method is Hybrid,
        clipboard_outcome is Err,
        typing_outcome is Ok,
    ensures
        r is Ok,
{
}

} // verus!
