//! The journal: one line for each request.
//!
//! A line names the method, the host as the client gave it, the target that
//! the router resolved it to, the path, and the status that the client got.
//! Where the request failed the reason follows in brackets. Writing the line
//! out is left to the caller.

use crate::proxy::{Plan, PlanView, RequestHead, RequestHeadView};
use crate::relay::{path_or_root, request_path};
use crate::text::{decimal, push_decimal};
use vstd::prelude::*;
use vstd::string::*;

verus! {

/// What stands for the target of a request that went to no upstream.
pub const NO_TARGET: &'static str = "-";

/// The line for a request that was answered with `status`.
pub open spec fn line(
    method: Seq<char>,
    host: Seq<char>,
    target: Seq<char>,
    path: Seq<char>,
    status: u16,
) -> Seq<char> {
    method + " "@ + host + "@"@ + target + path + " "@ + decimal(status as nat)
}

/// The line for a request, with the reason of its failure where it failed.
pub open spec fn line_with(
    method: Seq<char>,
    host: Seq<char>,
    target: Seq<char>,
    path: Seq<char>,
    status: u16,
    reason: Option<Seq<char>>,
) -> Seq<char> {
    match reason {
        Some(why) => line(method, host, target, path, status) + " ("@ + why + ")"@,
        None => line(method, host, target, path, status),
    }
}

/// Writes the line for a request.
pub fn log_line(
    method: &str,
    host: &str,
    target: &str,
    path: &str,
    status: u16,
    reason: Option<&str>,
) -> (text: String)
    ensures
        text@ == line_with(
            method@,
            host@,
            target@,
            path@,
            status,
            match reason {
                Some(why) => Some(why@),
                None => None,
            },
        ),
{
    let mut text = String::from_str(method);
    text.append(" ");
    text.append(host);
    text.append("@");
    text.append(target);
    text.append(path);
    text.append(" ");
    push_decimal(&mut text, status);
    match reason {
        Some(why) => {
            text.append(" (");
            text.append(why);
            text.append(")");
        },
        None => {},
    }
    text
}

/// The target that a plan sends a request to, or `-` where the plan
/// contacts no upstream.
pub open spec fn target_of(plan: PlanView) -> Seq<char> {
    match plan {
        PlanView::Relay { authority, .. } => authority,
        PlanView::Bridge { authority, .. } => authority,
        PlanView::Tunnel { authority, .. } => authority,
        PlanView::Respond { .. } => NO_TARGET@,
        PlanView::LandingPage => NO_TARGET@,
    }
}

/// The line for `request`, handled according to `plan` and answered with
/// `status`: the method, the host that the request named, the target of
/// the plan, and the path of the request.
pub open spec fn entry(
    request: RequestHeadView,
    plan: PlanView,
    status: u16,
    reason: Option<Seq<char>>,
) -> Seq<char> {
    line_with(
        request.method,
        request.named_host(),
        target_of(plan),
        path_or_root(request.path_and_query),
        status,
        reason,
    )
}

/// Tells the target that a plan sends a request to.
pub fn plan_target(plan: &Plan) -> (target: &str)
    ensures
        target@ == target_of(plan@),
{
    match plan {
        Plan::Relay { authority, .. } => authority.as_str(),
        Plan::Bridge { authority, .. } => authority.as_str(),
        Plan::Tunnel { authority, .. } => authority.as_str(),
        Plan::Respond { .. } => NO_TARGET,
        Plan::LandingPage => NO_TARGET,
    }
}

/// Writes the line for a request that was handled according to `plan` and
/// answered with `status`, with the reason of its failure where it failed.
pub fn request_line(
    request: &RequestHead,
    plan: &Plan,
    status: u16,
    reason: Option<&str>,
) -> (text: String)
    ensures
        text@ == entry(
            request@,
            plan@,
            status,
            match reason {
                Some(why) => Some(why@),
                None => None,
            },
        ),
{
    log_line(
        request.method.as_str(),
        request.named_host(),
        plan_target(plan),
        request_path(&request.path_and_query),
        status,
        reason,
    )
}

} // verus!
