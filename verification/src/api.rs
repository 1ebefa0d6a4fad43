//! What the public and the reporting endpoints answer, given what the
//! database gave back.

use vstd::prelude::*;

use crate::models::{reply_is, ReportResponse, SummaryResponse, UsageQuery, UserInfo, UserSummary};
use crate::models::{STATUS_CONFLICT, STATUS_CREATED, STATUS_INTERNAL_SERVER_ERROR};

verus! {

broadcast use vstd::seq_lib::group_seq_properties;

/// One row of the hourly timeline: the tokens that one user spent in one hour.
#[derive(Debug, Clone)]
pub struct HourlyUsage {
    pub hour: String,
    pub username: String,
    pub input_tokens: i64,
    pub output_tokens: i64,
}

/// The answer to a usage report, given the outcome of storing it: `Ok(true)`
/// when the report was new, `Ok(false)` when a report with its id was already
/// stored (the duplicate is ignored), `Err(message)` when storing failed.
pub fn report_handler(stored: Result<bool, String>) -> (reply: Result<
    (u16, ReportResponse),
    (u16, ReportResponse),
>)
    ensures
        match stored {
            Ok(true) => reply matches Ok((code, body)) && code == STATUS_CREATED && reply_is(
                body,
                "created"@,
                None,
            ),
            Ok(false) => reply matches Err((code, body)) && code == STATUS_CONFLICT && reply_is(
                body,
                "duplicate"@,
                Some("Report already exists"@),
            ),
            Err(e) => reply matches Err((code, body)) && code == STATUS_INTERNAL_SERVER_ERROR
                && reply_is(body, "error"@, Some(e@)),
        },
{
    match stored {
        Ok(true) => Ok(
            (STATUS_CREATED, ReportResponse { status: String::from_str("created"), message: None }),
        ),
        Ok(false) => Err(
            (
                STATUS_CONFLICT,
                ReportResponse {
                    status: String::from_str("duplicate"),
                    message: Some(String::from_str("Report already exists")),
                },
            ),
        ),
        Err(e) => Err(
            (
                STATUS_INTERNAL_SERVER_ERROR,
                ReportResponse { status: String::from_str("error"), message: Some(e) },
            ),
        ),
    }
}

/// The answer to the list of users: the users as the database listed them,
/// or `500` with the database's message.
pub fn users_handler(users: Result<Vec<UserInfo>, String>) -> (reply: Result<
    Vec<UserInfo>,
    (u16, String),
>)
    ensures
        match users {
            Ok(v) => reply matches Ok(r) && r@ == v@,
            Err(e) => reply matches Err((code, m)) && code == STATUS_INTERNAL_SERVER_ERROR && m@
                == e@,
        },
{
    match users {
        Ok(v) => Ok(v),
        Err(e) => Err((STATUS_INTERNAL_SERVER_ERROR, e)),
    }
}

/// The window that a usage query asks for: its `window` parameter, `5h` where
/// it has none.
pub open spec fn usage_window_of(query: UsageQuery) -> Seq<char> {
    match query.window {
        Some(w) => w@,
        None => "5h"@,
    }
}

/// The window of a usage query; see [`usage_window_of`].
pub fn usage_window(query: &UsageQuery) -> (window: &str)
    ensures
        window@ == usage_window_of(*query),
        query.window matches Some(w) ==> window@ == w@,
        query.window is None ==> window@ == "5h"@,
{
    match &query.window {
        Some(w) => w.as_str(),
        None => "5h",
    }
}

/// Law: a usage query that names a window asks for exactly that window, and
/// only a query without one asks for the last five hours.
pub proof fn lemma_usage_window_is_the_named_one(query: UsageQuery)
    ensures
        query.window matches Some(w) ==> usage_window_of(query) == w@,
        query.window is None ==> usage_window_of(query) == "5h"@,
{
}

/// Holds of the summaries of the user named `name`.
pub open spec fn of_user(name: Seq<char>) -> spec_fn(UserSummary) -> bool {
    |s: UserSummary| s.username@ == name
}

/// The summaries that a usage query keeps: those of its `user` where it names
/// one, in the order given; all of them where it names none.
pub open spec fn summaries_for(rows: Seq<UserSummary>, user: Option<String>) -> Seq<UserSummary> {
    match user {
        Some(u) => rows.filter(of_user(u@)),
        None => rows,
    }
}

/// The answer to a usage query, given the summaries of its window (see
/// [`usage_window`]): the summaries that [`summaries_for`] keeps, or `500` with
/// the database's message.
pub fn usage_handler(query: &UsageQuery, summaries: Result<Vec<UserSummary>, String>) -> (reply:
    Result<Vec<UserSummary>, (u16, String)>)
    ensures
        match summaries {
            Ok(v) => reply matches Ok(r) && r@ == summaries_for(v@, query.user) && (query.user
                is None ==> r@ == v@) && (query.user matches Some(u) ==> r@ == v@.filter(
                |s: UserSummary| s.username@ == u@,
            )),
            Err(e) => reply matches Err((code, m)) && code == STATUS_INTERNAL_SERVER_ERROR && m@
                == e@,
        },
{
    let rows = match summaries {
        Ok(v) => v,
        Err(e) => {
            return Err((STATUS_INTERNAL_SERVER_ERROR, e));
        },
    };
    match &query.user {
        None => Ok(rows),
        Some(user) => {
            let ghost all = rows@;
            let ghost pred = of_user(user@);
            let mut kept: Vec<UserSummary> = Vec::new();
            for summary in it: rows.into_iter()
                invariant
                    it.seq() == all,
                    pred == of_user(user@),
                    kept@ == all.take(it.index() as int).filter(pred),
            {
                let ghost i = it.index() as int;
                proof {
                    assert(all.take(i + 1) =~= all.take(i).push(summary));
                    all.take(i).lemma_filter_push(summary, pred);
                }
                if summary.username == *user {
                    kept.push(summary);
                }
            }
            proof {
                assert(all.take(all.len() as int) =~= all);
            }
            Ok(kept)
        },
    }
}

/// Law: a usage query that names a user keeps that user's summaries and no
/// other, and one that names none keeps every summary.
pub proof fn lemma_usage_keeps_exactly_the_user(rows: Seq<UserSummary>, user: String)
    ensures
        forall|i: int|
            0 <= i < summaries_for(rows, Some(user)).len() ==> (#[trigger] summaries_for(
                rows,
                Some(user),
            )[i]).username@ == user@,
        forall|i: int|
            0 <= i < rows.len() && rows[i].username@ == user@ ==> summaries_for(
                rows,
                Some(user),
            ).contains(#[trigger] rows[i]),
        summaries_for(rows, None) == rows,
{
    let kept = rows.filter(of_user(user@));
    assert forall|i: int| 0 <= i < kept.len() implies (#[trigger] kept[i]).username@ == user@ by {
        rows.lemma_filter_pred(of_user(user@), i);
    }
    assert forall|i: int| 0 <= i < rows.len() && rows[i].username@ == user@ implies kept.contains(
        #[trigger] rows[i],
    ) by {
        rows.lemma_filter_contains(of_user(user@), i);
    }
}

/// Law: asking a usage query of its own answer changes nothing.
pub proof fn lemma_usage_filter_idempotent(rows: Seq<UserSummary>, user: Option<String>)
    ensures
        summaries_for(summaries_for(rows, user), user) == summaries_for(rows, user),
    decreases rows.len(),
{
    if let Some(u) = user {
        let p = of_user(u@);
        if rows.len() > 0 {
            let init = rows.drop_last();
            let last = rows.last();
            lemma_usage_filter_idempotent(init, user);
            assert(rows =~= init.push(last));
            init.lemma_filter_push(last, p);
            if p(last) {
                init.filter(p).lemma_filter_push(last, p);
            }
        } else {
            assert(rows.filter(p) =~= rows) by {
                reveal_with_fuel(Seq::filter, 1);
            }
        }
    }
}

/// The window whose summaries the summary request asks for first: `5h`.
pub fn summary_first_window() -> (window: &'static str)
    ensures
        window@ == "5h"@,
{
    "5h"
}

/// The window whose summaries the summary request asks for second, once the
/// first query succeeded (see [`summary_start`]): `7d`.
pub fn summary_second_window() -> (window: &'static str)
    ensures
        window@ == "7d"@,
{
    "7d"
}

/// The first step of the summary request, given the summaries of the `5h`
/// window ([`summary_first_window`]): `Ok` with them where the query
/// succeeded, and only then is the `7d` window ([`summary_second_window`])
/// asked for next (see [`summary_handler`]); else the answer is `500` with
/// the database's message and no further query is made.
pub fn summary_start(window_5h: Result<Vec<UserSummary>, String>) -> (step: Result<
    Vec<UserSummary>,
    (u16, String),
>)
    ensures
        match window_5h {
            Ok(a) => step matches Ok(r) && r@ == a@,
            Err(e) => step matches Err((code, m)) && code == STATUS_INTERNAL_SERVER_ERROR && m@
                == e@,
        },
{
    match window_5h {
        Ok(a) => Ok(a),
        Err(e) => Err((STATUS_INTERNAL_SERVER_ERROR, e)),
    }
}

/// The answer to the summary request once the `5h` window is in (see
/// [`summary_start`]), given the summaries of the `7d` window: both windows,
/// or `500` with the database's message.
pub fn summary_handler(window_5h: Vec<UserSummary>, window_7d: Result<Vec<UserSummary>, String>) -> (reply: Result<SummaryResponse, (u16, String)>)
    ensures
        match window_7d {
            Ok(b) => reply matches Ok(r) && r.window_5h@ == window_5h@ && r.window_7d@ == b@,
            Err(e) => reply matches Err((code, m)) && code == STATUS_INTERNAL_SERVER_ERROR && m@
                == e@,
        },
{
    match window_7d {
        Ok(b) => Ok(SummaryResponse { window_5h, window_7d: b }),
        Err(e) => Err((STATUS_INTERNAL_SERVER_ERROR, e)),
    }
}

/// `row` is the database row `(hour, username, input, output)` that `usage`
/// was made from.
pub open spec fn hourly_row_matches(usage: HourlyUsage, row: (String, String, i64, i64)) -> bool {
    &&& usage.hour == row.0
    &&& usage.username == row.1
    &&& usage.input_tokens == row.2
    &&& usage.output_tokens == row.3
}

/// Law: an hourly entry stands for a database row exactly when it carries
/// the row's hour, user, input tokens and output tokens unchanged.
pub proof fn lemma_hourly_entry_keeps_the_row(usage: HourlyUsage, row: (String, String, i64, i64))
    ensures
        hourly_row_matches(usage, row) <==> (usage.hour == row.0 && usage.username == row.1
            && usage.input_tokens == row.2 && usage.output_tokens == row.3),
{
}

/// The answer to the hourly request, given the database rows `(hour,
/// username, input tokens, output tokens)`: one [`HourlyUsage`] per row, in
/// order, or `500` with the database's message.
pub fn hourly_handler(data: Result<Vec<(String, String, i64, i64)>, String>) -> (reply: Result<
    Vec<HourlyUsage>,
    (u16, String),
>)
    ensures
        match data {
            Ok(rows) => reply matches Ok(r) && r.len() == rows.len() && (forall|i: int|
                0 <= i < rows.len() ==> #[trigger] hourly_row_matches(r@[i], rows@[i])) && (
            forall|i: int|
                0 <= i < rows.len() ==> {
                    &&& (#[trigger] r@[i]).hour == rows@[i].0
                    &&& r@[i].username == rows@[i].1
                    &&& r@[i].input_tokens == rows@[i].2
                    &&& r@[i].output_tokens == rows@[i].3
                }),
            Err(e) => reply matches Err((code, m)) && code == STATUS_INTERNAL_SERVER_ERROR && m@
                == e@,
        },
{
    let rows = match data {
        Ok(rows) => rows,
        Err(e) => {
            return Err((STATUS_INTERNAL_SERVER_ERROR, e));
        },
    };
    let ghost all = rows@;
    let mut out: Vec<HourlyUsage> = Vec::new();
    for row in it: rows.into_iter()
        invariant
            it.seq() == all,
            out.len() == it.index(),
            forall|i: int| 0 <= i < out.len() ==> #[trigger] hourly_row_matches(out@[i], all[i]),
            forall|i: int|
                0 <= i < out.len() ==> {
                    &&& (#[trigger] out@[i]).hour == all[i].0
                    &&& out@[i].username == all[i].1
                    &&& out@[i].input_tokens == all[i].2
                    &&& out@[i].output_tokens == all[i].3
                },
    {
        let (hour, username, input_tokens, output_tokens) = row;
        out.push(HourlyUsage { hour, username, input_tokens, output_tokens });
    }
    Ok(out)
}

} // verus!
