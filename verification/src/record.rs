use vstd::prelude::*;

use crate::format::{args_rep, fold_message, Field};
use crate::level::Level;

verus! {

/// One already-formatted record, as a sink consumes it: the level, the
/// folded primary message, the assembled args text (absent when no field
/// other than `message` was supplied), and the optional source location.
pub struct Record {
    pub level: Level,
    pub msg: String,
    pub args: Option<String>,
    pub file: Option<String>,
    pub line: Option<u32>,
}

/// The mathematical value of a [`Record`].
#[verifier::ext_equal]
pub struct RecordView {
    pub level: Level,
    pub msg: Seq<char>,
    pub args: Option<Seq<char>>,
    pub file: Option<Seq<char>>,
    pub line: Option<u32>,
}

impl View for Record {
    type V = RecordView;

    open spec fn view(&self) -> RecordView {
        RecordView {
            level: self.level,
            msg: self.msg@,
            args: match self.args {
                Some(a) => Some(a@),
                None => None,
            },
            file: match self.file {
                Some(f) => Some(f@),
                None => None,
            },
            line: self.line,
        }
    }
}

/// The view of an optional borrowed text.
pub open spec fn opt_text_view(s: Option<&str>) -> Option<Seq<char>> {
    match s {
        Some(t) => Some(t@),
        None => None,
    }
}

/// The record that an emit call builds from its arguments: the `message`
/// fields folded into the primary message, the remaining fields assembled
/// into the args text.
pub open spec fn emitted_record(
    level: Level,
    message: Seq<char>,
    fields: Seq<Field>,
    file: Option<Seq<char>>,
    line: Option<u32>,
) -> RecordView {
    RecordView {
        level,
        msg: fold_message(message, fields),
        args: if args_rep(fields).len() == 0 {
            None
        } else {
            Some(args_rep(fields))
        },
        file,
        line,
    }
}

} // verus!
