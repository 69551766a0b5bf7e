//! The decisions of the self-correcting executor: what to do after each
//! attempt of an operation. The caller runs the attempts.

use crate::config::{copy_text, ConfigView, OssConfig};
use crate::endpoint::{resolved, ResolvedView};
use crate::error::OssError;
use crate::operation::Operation;
use crate::redirect::{
    ensure_scheme, extract_endpoint_from_error_xml, extracted_endpoint, with_scheme,
};
use crate::region::{infer_region_from_endpoint, inferred_region};
use vstd::prelude::*;

verus! {

/// Which attempt of a call has just ended.
#[derive(Debug, Clone, Copy, PartialEq, Eq, Structural)]
pub enum Attempt {
    First,
    Retry,
}

/// How one attempt ended.
#[derive(Debug, PartialEq, Eq)]
pub enum Outcome<T> {
    /// The storage backend answered with a result.
    Completed(T),
    /// The deadline of the operation passed first.
    TimedOut,
    /// The storage backend answered with an error; holds its text.
    Rejected(String),
}

/// What the executor does after an attempt.
#[derive(Debug, PartialEq, Eq)]
pub enum Action<T> {
    /// Hand the result to the caller.
    Return(T),
    /// Hand the failure to the caller.
    Fail(OssError),
    /// Rebuild the client from this configuration and attempt once more.
    Retry(OssConfig),
}

/// An `Action` over character sequences.
pub ghost enum Decision<T> {
    Return(T),
    TimedOut(Operation),
    Rejected(Seq<char>),
    Retry(ConfigView),
    Refused(Seq<char>),
}

impl<T> View for Action<T> {
    type V = Decision<T>;

    open spec fn view(&self) -> Decision<T> {
        match *self {
            Action::Return(v) => Decision::Return(v),
            Action::Fail(OssError::OperationTimeout(op)) => Decision::TimedOut(op),
            Action::Fail(OssError::ProviderError(text)) => Decision::Rejected(text@),
            Action::Fail(e) => Decision::Refused(e.text()),
            Action::Retry(cfg) => Decision::Retry(cfg@),
        }
    }
}

/// The configuration after a redirect: the endpoint that the provider
/// named, with a scheme, and the region inferred from it; all else as before.
pub open spec fn corrected(cfg: ConfigView, endpoint: Seq<char>, region: Seq<char>) -> ConfigView {
    ConfigView { endpoint: Some(with_scheme(endpoint)), region: Some(region), ..cfg }
}

/// The corrected configuration that an error text leads to, where the text
/// carries an endpoint and the provider's pattern gives its region.
pub open spec fn recovery(cfg: ConfigView, error_text: Seq<char>) -> Option<ConfigView> {
    match extracted_endpoint(error_text) {
        Some(endpoint) => match inferred_region(cfg.provider, endpoint) {
            Some(region) => Some(corrected(cfg, endpoint, region)),
            None => None,
        },
        None => None,
    }
}

/// What follows an attempt. A result is returned and a timeout is final,
/// on either attempt. An error of the first attempt leads to one retry
/// where `recovery` finds a corrected configuration; every other error is
/// handed on as it came.
pub open spec fn decision<T>(
    op: Operation,
    cfg: ConfigView,
    attempt: Attempt,
    outcome: Outcome<T>,
) -> Decision<T> {
    match outcome {
        Outcome::Completed(v) => Decision::Return(v),
        Outcome::TimedOut => Decision::TimedOut(op),
        Outcome::Rejected(text) => match (attempt, recovery(cfg, text@)) {
            (Attempt::First, Some(fixed)) => Decision::Retry(fixed),
            _ => Decision::Rejected(text@),
        },
    }
}

/// What a call ends in, given how its first attempt ended and how a retry
/// would end.
pub open spec fn final_decision<T>(
    op: Operation,
    cfg: ConfigView,
    first: Outcome<T>,
    retry: Outcome<T>,
) -> Decision<T> {
    match decision(op, cfg, Attempt::First, first) {
        Decision::Retry(fixed) => decision(op, fixed, Attempt::Retry, retry),
        done => done,
    }
}

/// The configuration to retry with after an error, where there is one.
pub fn recover(cfg: &OssConfig, err_text: &str) -> (r: Option<OssConfig>)
    ensures
        match r {
            Some(fixed) => recovery(cfg@, err_text@) == Some(fixed@),
            None => recovery(cfg@, err_text@) is None,
        },
{
    let endpoint = match extract_endpoint_from_error_xml(err_text) {
        Some(endpoint) => endpoint,
        None => { return None; },
    };
    let region = match infer_region_from_endpoint(cfg.provider.as_str(), endpoint.as_str()) {
        Some(region) => region,
        None => { return None; },
    };
    Some(
        OssConfig {
            provider: cfg.provider.clone(),
            access_key: cfg.access_key.clone(),
            secret_key: cfg.secret_key.clone(),
            region: Some(region),
            endpoint: Some(ensure_scheme(endpoint.as_str())),
            bucket: copy_text(&cfg.bucket),
        },
    )
}

/// Decides what follows an attempt of `op` that was made with `cfg`.
pub fn next_action<T>(op: Operation, cfg: &OssConfig, attempt: Attempt, outcome: Outcome<T>) -> (action:
    Action<T>)
    ensures
        action@ == decision(op, cfg@, attempt, outcome),
{
    match outcome {
        Outcome::Completed(v) => Action::Return(v),
        Outcome::TimedOut => Action::Fail(OssError::OperationTimeout(op)),
        Outcome::Rejected(text) => {
            match attempt {
                Attempt::First => match recover(cfg, text.as_str()) {
                    Some(fixed) => Action::Retry(fixed),
                    None => Action::Fail(OssError::ProviderError(text)),
                },
                Attempt::Retry => Action::Fail(OssError::ProviderError(text)),
            }
        },
    }
}

/// A timeout ends the call on either attempt: no retry follows it.
pub proof fn lemma_timeout_is_final<T>(op: Operation, cfg: ConfigView, attempt: Attempt, retry: Outcome<T>)
    ensures
        decision::<T>(op, cfg, attempt, Outcome::TimedOut) == Decision::<T>::TimedOut(op),
        final_decision::<T>(op, cfg, Outcome::TimedOut, retry) == Decision::<T>::TimedOut(op),
{
}

/// The retry is the last attempt: whatever it ends in is handed to the
/// caller, and no further retry follows.
pub proof fn lemma_retry_is_final<T>(op: Operation, cfg: ConfigView, outcome: Outcome<T>)
    ensures
        !(decision(op, cfg, Attempt::Retry, outcome) is Retry),
        decision(op, cfg, Attempt::Retry, outcome) == match outcome {
            Outcome::Completed(v) => Decision::Return(v),
            Outcome::TimedOut => Decision::TimedOut(op),
            Outcome::Rejected(text) => Decision::Rejected(text@),
        },
{
}

/// An error of the first attempt that carries a recoverable endpoint is
/// followed by exactly one retry, made with the corrected configuration,
/// and the call ends in what the retry ends in.
pub proof fn lemma_recoverable_error_retries_once<T>(
    op: Operation,
    cfg: ConfigView,
    error_text: String,
    retry: Outcome<T>,
)
    requires
        recovery(cfg, error_text@) is Some,
    ensures
        decision::<T>(op, cfg, Attempt::First, Outcome::Rejected(error_text)) == Decision::<
            T,
        >::Retry(recovery(cfg, error_text@)->0),
        final_decision::<T>(op, cfg, Outcome::Rejected(error_text), retry) == match retry {
            Outcome::Completed(v) => Decision::Return(v),
            Outcome::TimedOut => Decision::TimedOut(op),
            Outcome::Rejected(text) => Decision::Rejected(text@),
        },
{
}

/// An error of the first attempt from which no corrected configuration
/// follows is handed on as it came, without a retry.
pub proof fn lemma_unrecoverable_error_is_final<T>(
    op: Operation,
    cfg: ConfigView,
    error_text: String,
    retry: Outcome<T>,
)
    requires
        recovery(cfg, error_text@) is None,
    ensures
        final_decision::<T>(op, cfg, Outcome::Rejected(error_text), retry) == Decision::<
            T,
        >::Rejected(error_text@),
{
}

/// A corrected configuration always resolves, to the inferred region and
/// the endpoint that the provider named: the retry needs no rule.
pub proof fn lemma_corrected_resolves(cfg: ConfigView, endpoint: Seq<char>, region: Seq<char>)
    ensures
        resolved(corrected(cfg, endpoint, region)) == Some(
            ResolvedView { region_code: region, endpoint_url: Some(with_scheme(endpoint)) },
        ),
        corrected(cfg, endpoint, region).bucket == cfg.bucket,
{
}

} // verus!
