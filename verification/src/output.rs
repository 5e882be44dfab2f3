//! The lines that the commands report, before any colouring.
use vstd::prelude::*;
use crate::text::{append_str, push_decimal, decimal, string_of, str_views, join_with};

verus! {

/// One reported line: a pass, a failure, a warning, or a detail that is
/// shown only in verbose mode.
pub enum Report {
    Pass(String),
    Fail(String),
    Warn(String),
    Detail(String),
}

/// A reported line as text.
pub enum ReportView {
    Pass(Seq<char>),
    Fail(Seq<char>),
    Warn(Seq<char>),
    Detail(Seq<char>),
}

impl View for Report {
    type V = ReportView;

    open spec fn view(&self) -> ReportView {
        match self {
            Report::Pass(t) => ReportView::Pass(t@),
            Report::Fail(t) => ReportView::Fail(t@),
            Report::Warn(t) => ReportView::Warn(t@),
            Report::Detail(t) => ReportView::Detail(t@),
        }
    }
}

pub open spec fn report_views(v: Seq<Report>) -> Seq<ReportView> {
    v.map_values(|r: Report| r@)
}

/// A pass when `ok` holds, a failure otherwise.
pub open spec fn status_view(ok: bool, text: Seq<char>) -> ReportView {
    if ok {
        ReportView::Pass(text)
    } else {
        ReportView::Fail(text)
    }
}

/// A success line when `ok` holds, a failure line otherwise.
pub fn item_status(ok: bool, text: &str) -> (r: Report)
    ensures
        r@ == status_view(ok, text@),
{
    if ok {
        Report::Pass(String::from_str(text))
    } else {
        Report::Fail(String::from_str(text))
    }
}

/// A traced command: the program and its arguments, separated by spaces.
pub fn command_line(command: &str, args: &Vec<String>) -> (line: String)
    ensures
        line@ == join_with(seq![command@] + str_views(args@), " "@),
{
    let mut parts: Vec<String> = Vec::new();
    parts.push(String::from_str(command));
    let mut i: usize = 0;
    while i < args.len()
        invariant
            i <= args.len(),
            str_views(parts@) == seq![command@] + str_views(args@).take(i as int),
        decreases args.len() - i,
    {
        let ghost before = str_views(parts@);
        let a = args[i].clone();
        parts.push(a);
        assert(str_views(parts@) =~= before.push(args@[i as int]@));
        assert(str_views(args@).take(i + 1) =~= str_views(args@).take(i as int).push(args@[i as int]@));
        i = i + 1;
        assert(str_views(parts@) =~= seq![command@] + str_views(args@).take(i as int));
    }
    assert(str_views(args@).take(args.len() as int) =~= str_views(args@));
    crate::text::join_strings(&parts, " ")
}

/// The inline progress label `[current/total] text...`.
pub fn progress_label(current: usize, total: usize, text: &str) -> (label: String)
    ensures
        label@ == "["@ + decimal(current as nat) + "/"@ + decimal(total as nat) + "] "@ + text@
            + "..."@,
{
    let mut v: Vec<char> = Vec::new();
    append_str(&mut v, "[");
    push_decimal(&mut v, current as u64);
    append_str(&mut v, "/");
    push_decimal(&mut v, total as u64);
    append_str(&mut v, "] ");
    append_str(&mut v, text);
    append_str(&mut v, "...");
    string_of(&v)
}

}
