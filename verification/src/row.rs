use vstd::prelude::*;
use crate::error::LedgerError;
use crate::status::{ObjType, Status};
use crate::timestamp::Timestamp;

verus! {

/// The columns a persisted record row can carry.
#[derive(Clone, Copy, Debug, PartialEq, Eq, Structural)]
pub enum ColName {
    Id,
    Kind,
    Created,
    Amount,
    RechargeAmount,
    Fee,
    Succeeded,
    TimeSucceeded,
    WalletId,
    Description,
    Extra,
    Settle,
    Status,
    TimeCanceled,
}

/// A column value as the store hands it over: a typed scalar, a structured
/// payload kept as its text, or an explicit null.
#[derive(Debug)]
pub enum ColValue {
    /// A text column.
    Text(String),
    /// A 32-bit integer column.
    Int(i32),
    /// A boolean column.
    Flag(bool),
    /// A timestamp column.
    Time(Timestamp),
    /// A structured (JSON) column, carried as its text.
    Json(String),
    /// A record-kind column.
    Kind(ObjType),
    /// A status column.
    Stat(Status),
    /// An explicit null in a nullable column.
    Null,
}

/// One persisted row: the columns the store returned, in its order.
#[derive(Debug)]
pub struct RowData {
    pub cols: Vec<(ColName, ColValue)>,
}

/// The value of the first column named `n`, if the row has one.
pub open spec fn spec_col(s: Seq<(ColName, ColValue)>, n: ColName) -> Option<ColValue>
    decreases s.len(),
{
    if s.len() == 0 {
        Option::None
    } else if s[0].0 == n {
        Option::Some(s[0].1)
    } else {
        spec_col(s.drop_first(), n)
    }
}

/// The text a required text column holds.
pub open spec fn spec_text_of(c: Option<ColValue>) -> String {
    match c {
        Option::Some(ColValue::Text(s)) => s,
        _ => arbitrary(),
    }
}

/// The non-negative integer a required integer column holds.
pub open spec fn spec_uint_of(c: Option<ColValue>) -> u32 {
    match c {
        Option::Some(ColValue::Int(v)) => v as u32,
        _ => arbitrary(),
    }
}

/// The boolean a required boolean column holds.
pub open spec fn spec_flag_of(c: Option<ColValue>) -> bool {
    match c {
        Option::Some(ColValue::Flag(v)) => v,
        _ => arbitrary(),
    }
}

/// The instant a required timestamp column holds.
pub open spec fn spec_time_of(c: Option<ColValue>) -> Timestamp {
    match c {
        Option::Some(ColValue::Time(t)) => t,
        _ => arbitrary(),
    }
}

/// The record kind a required kind column holds.
pub open spec fn spec_kind_of(c: Option<ColValue>) -> ObjType {
    match c {
        Option::Some(ColValue::Kind(k)) => k,
        _ => arbitrary(),
    }
}

/// The status a required status column holds.
pub open spec fn spec_stat_of(c: Option<ColValue>) -> Status {
    match c {
        Option::Some(ColValue::Stat(st)) => st,
        _ => arbitrary(),
    }
}

/// The instant a nullable timestamp column holds, if any.
pub open spec fn spec_opt_time_of(c: Option<ColValue>) -> Option<Timestamp> {
    match c {
        Option::Some(ColValue::Time(t)) => Option::Some(t),
        Option::Some(ColValue::Null) => Option::None,
        _ => arbitrary(),
    }
}

/// The text a nullable text column holds, if any.
pub open spec fn spec_opt_text_of(c: Option<ColValue>) -> Option<String> {
    match c {
        Option::Some(ColValue::Text(s)) => Option::Some(s),
        Option::Some(ColValue::Null) => Option::None,
        _ => arbitrary(),
    }
}

/// The text a nullable structured column holds, if any.
pub open spec fn spec_opt_json_of(c: Option<ColValue>) -> Option<String> {
    match c {
        Option::Some(ColValue::Json(s)) => Option::Some(s),
        Option::Some(ColValue::Null) => Option::None,
        _ => arbitrary(),
    }
}

/// Clone an optional text value.
pub fn clone_opt_string(s: &Option<String>) -> (r: Option<String>)
    ensures
        r == *s,
{
    match s {
        Some(x) => Some(x.clone()),
        None => None,
    }
}

/// `spec_col` returns the value at the first index whose name matches.
proof fn lemma_spec_col_found(s: Seq<(ColName, ColValue)>, n: ColName, i: int)
    requires
        0 <= i < s.len(),
        s[i].0 == n,
        forall|j: int| 0 <= j < i ==> s[j].0 != n,
    ensures
        spec_col(s, n) == Option::Some(s[i].1),
    decreases i,
{
    if i > 0 {
        lemma_spec_col_found(s.drop_first(), n, i - 1);
    }
}

/// `spec_col` returns nothing when no column carries the name.
proof fn lemma_spec_col_absent(s: Seq<(ColName, ColValue)>, n: ColName)
    requires
        forall|j: int| 0 <= j < s.len() ==> s[j].0 != n,
    ensures
        spec_col(s, n) is None,
    decreases s.len(),
{
    if s.len() > 0 {
        lemma_spec_col_absent(s.drop_first(), n);
    }
}

impl RowData {
    /// The index of the first column named `n`, or the row width when the
    /// row has no such column.
    fn find(&self, n: ColName) -> (r: usize)
        ensures
            r <= self.cols@.len(),
            forall|j: int| 0 <= j < r ==> self.cols@[j].0 != n,
            r < self.cols@.len() ==> self.cols@[r as int].0 == n && spec_col(
                self.cols@,
                n,
            ) == Option::Some(self.cols@[r as int].1),
            r == self.cols@.len() ==> spec_col(self.cols@, n) is None,
    {
        let mut i: usize = 0;
        while i < self.cols.len()
            invariant
                i <= self.cols@.len(),
                forall|j: int| 0 <= j < i ==> self.cols@[j].0 != n,
            decreases self.cols@.len() - i,
        {
            if self.cols[i].0 == n {
                proof {
                    lemma_spec_col_found(self.cols@, n, i as int);
                }
                return i;
            }
            i = i + 1;
        }
        proof {
            lemma_spec_col_absent(self.cols@, n);
        }
        i
    }

    /// The text in a required text column; a row-mapping failure when the
    /// column is absent or not text.
    pub fn get_text(&self, n: ColName) -> (r: Result<String, LedgerError>)
        ensures
            match r {
                Ok(s) => spec_col(self.cols@, n) == Option::Some(ColValue::Text(s)),
                Err(e) => e == LedgerError::RowMapping && !(spec_col(self.cols@, n) matches Some(
                    ColValue::Text(_),
                )),
            },
    {
        let i = self.find(n);
        if i == self.cols.len() {
            return Err(LedgerError::RowMapping);
        }
        match &self.cols[i].1 {
            ColValue::Text(s) => Ok(s.clone()),
            _ => Err(LedgerError::RowMapping),
        }
    }

    /// The non-negative integer in a required integer column; a row-mapping
    /// failure when the column is absent, not an integer, or negative.
    pub fn get_uint(&self, n: ColName) -> (r: Result<u32, LedgerError>)
        ensures
            match r {
                Ok(v) => spec_col(self.cols@, n) matches Some(ColValue::Int(w)) && w >= 0 && w
                    == v as i32 && v == w as u32,
                Err(e) => e == LedgerError::RowMapping && !(spec_col(self.cols@, n) matches Some(
                    ColValue::Int(v),
                ) && v >= 0),
            },
    {
        let i = self.find(n);
        if i == self.cols.len() {
            return Err(LedgerError::RowMapping);
        }
        match &self.cols[i].1 {
            ColValue::Int(v) => {
                if *v >= 0 {
                    Ok(*v as u32)
                } else {
                    Err(LedgerError::RowMapping)
                }
            },
            _ => Err(LedgerError::RowMapping),
        }
    }

    /// The boolean in a required boolean column.
    pub fn get_flag(&self, n: ColName) -> (r: Result<bool, LedgerError>)
        ensures
            match r {
                Ok(v) => spec_col(self.cols@, n) == Option::Some(ColValue::Flag(v)),
                Err(e) => e == LedgerError::RowMapping && !(spec_col(self.cols@, n) matches Some(
                    ColValue::Flag(_),
                )),
            },
    {
        let i = self.find(n);
        if i == self.cols.len() {
            return Err(LedgerError::RowMapping);
        }
        match &self.cols[i].1 {
            ColValue::Flag(v) => Ok(*v),
            _ => Err(LedgerError::RowMapping),
        }
    }

    /// The instant in a required timestamp column.
    pub fn get_time(&self, n: ColName) -> (r: Result<Timestamp, LedgerError>)
        ensures
            match r {
                Ok(v) => spec_col(self.cols@, n) == Option::Some(ColValue::Time(v)),
                Err(e) => e == LedgerError::RowMapping && !(spec_col(self.cols@, n) matches Some(
                    ColValue::Time(_),
                )),
            },
    {
        let i = self.find(n);
        if i == self.cols.len() {
            return Err(LedgerError::RowMapping);
        }
        match &self.cols[i].1 {
            ColValue::Time(v) => Ok(*v),
            _ => Err(LedgerError::RowMapping),
        }
    }

    /// The record kind in a required kind column.
    pub fn get_kind(&self, n: ColName) -> (r: Result<ObjType, LedgerError>)
        ensures
            match r {
                Ok(v) => spec_col(self.cols@, n) == Option::Some(ColValue::Kind(v)),
                Err(e) => e == LedgerError::RowMapping && !(spec_col(self.cols@, n) matches Some(
                    ColValue::Kind(_),
                )),
            },
    {
        let i = self.find(n);
        if i == self.cols.len() {
            return Err(LedgerError::RowMapping);
        }
        match &self.cols[i].1 {
            ColValue::Kind(v) => Ok(*v),
            _ => Err(LedgerError::RowMapping),
        }
    }

    /// The status in a required status column.
    pub fn get_stat(&self, n: ColName) -> (r: Result<Status, LedgerError>)
        ensures
            match r {
                Ok(v) => spec_col(self.cols@, n) == Option::Some(ColValue::Stat(v)),
                Err(e) => e == LedgerError::RowMapping && !(spec_col(self.cols@, n) matches Some(
                    ColValue::Stat(_),
                )),
            },
    {
        let i = self.find(n);
        if i == self.cols.len() {
            return Err(LedgerError::RowMapping);
        }
        match &self.cols[i].1 {
            ColValue::Stat(v) => Ok(*v),
            _ => Err(LedgerError::RowMapping),
        }
    }

    /// The instant in a nullable timestamp column, `None` on an explicit
    /// null; a row-mapping failure when the column is absent or of another
    /// shape.
    pub fn get_opt_time(&self, n: ColName) -> (r: Result<Option<Timestamp>, LedgerError>)
        ensures
            match r {
                Ok(v) => match v {
                    Some(t) => spec_col(self.cols@, n) == Option::Some(ColValue::Time(t)),
                    None => spec_col(self.cols@, n) == Option::Some(ColValue::Null),
                },
                Err(e) => e == LedgerError::RowMapping && !(spec_col(self.cols@, n) matches Some(
                    ColValue::Time(_),
                )) && spec_col(self.cols@, n) != Option::Some(ColValue::Null),
            },
    {
        let i = self.find(n);
        if i == self.cols.len() {
            return Err(LedgerError::RowMapping);
        }
        match &self.cols[i].1 {
            ColValue::Time(v) => Ok(Some(*v)),
            ColValue::Null => Ok(None),
            _ => Err(LedgerError::RowMapping),
        }
    }

    /// The text in a nullable text column, `None` on an explicit null.
    pub fn get_opt_text(&self, n: ColName) -> (r: Result<Option<String>, LedgerError>)
        ensures
            match r {
                Ok(v) => match v {
                    Some(s) => spec_col(self.cols@, n) == Option::Some(ColValue::Text(s)),
                    None => spec_col(self.cols@, n) == Option::Some(ColValue::Null),
                },
                Err(e) => e == LedgerError::RowMapping && !(spec_col(self.cols@, n) matches Some(
                    ColValue::Text(_),
                )) && spec_col(self.cols@, n) != Option::Some(ColValue::Null),
            },
    {
        let i = self.find(n);
        if i == self.cols.len() {
            return Err(LedgerError::RowMapping);
        }
        match &self.cols[i].1 {
            ColValue::Text(s) => Ok(Some(s.clone())),
            ColValue::Null => Ok(None),
            _ => Err(LedgerError::RowMapping),
        }
    }

    /// The text of a nullable structured column, `None` on an explicit null.
    pub fn get_opt_json(&self, n: ColName) -> (r: Result<Option<String>, LedgerError>)
        ensures
            match r {
                Ok(v) => match v {
                    Some(s) => spec_col(self.cols@, n) == Option::Some(ColValue::Json(s)),
                    None => spec_col(self.cols@, n) == Option::Some(ColValue::Null),
                },
                Err(e) => e == LedgerError::RowMapping && !(spec_col(self.cols@, n) matches Some(
                    ColValue::Json(_),
                )) && spec_col(self.cols@, n) != Option::Some(ColValue::Null),
            },
    {
        let i = self.find(n);
        if i == self.cols.len() {
            return Err(LedgerError::RowMapping);
        }
        match &self.cols[i].1 {
            ColValue::Json(s) => Ok(Some(s.clone())),
            ColValue::Null => Ok(None),
            _ => Err(LedgerError::RowMapping),
        }
    }
}

} // verus!
