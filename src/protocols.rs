//! The interface shared by the recognizers of known record shapes.
use vstd::prelude::*;
use crate::json::{Json, no_esc, plain};
use crate::palette::RenderCtx;

verus! {

/// One decoded input line.
///
/// Besides the value itself it carries the six-place decimal renderings
/// (`{:.6}`) of the two timing fields of access logs, which the reader of
/// the line works out as floating-point numbers.
pub struct Record {
    pub value: Json,
    /// `req_time`, where it is a number.
    pub req_time: Option<String>,
    /// `upstream_time`, where it is a number or a string that reads as one.
    pub upstream_time: Option<String>,
}

/// Whether an optional text holds no escape character.
pub open spec fn opt_no_esc(o: Option<String>) -> bool {
    match o {
        Some(s) => no_esc(s@),
        None => true,
    }
}

/// Whether no text of `rec` holds an escape character.
pub open spec fn plain_record(rec: Record) -> bool {
    plain(rec.value) && opt_no_esc(rec.req_time) && opt_no_esc(rec.upstream_time)
}

/// A recognizer of one record shape.
pub trait JsonProtocol {
    /// How confidently this recognizes `v`, in hundredths.
    spec fn score(&self, v: Json) -> u32;

    /// The line written for `rec`; `None` where a required field is missing.
    spec fn line(&self, rec: Record, ctx: RenderCtx) -> Option<Seq<char>>;

    /// Scores `v`, from 0 to 100.
    fn sniff(&self, v: &Json) -> (r: u32)
        ensures
            r == self.score(*v),
            r <= 100,
    ;

    /// Renders `rec` as one line, or declines with `None`. With colours off,
    /// the line holds an escape character only where the record does.
    fn render(&self, rec: &Record, ctx: &RenderCtx) -> (r: Option<String>)
        ensures
            r matches Some(s) ==> self.line(*rec, *ctx) == Some(s@),
            r is None ==> self.line(*rec, *ctx) is None,
            ctx.pal.is_for(false) && plain_record(*rec) ==> (r matches Some(s) ==> no_esc(s@)),
    ;
}

} // verus!
