//! Append-only audit log for MCP write and admin operations.
//!
//! Two sinks: runtime writes (`create_page`, `update_page`, block
//! mutations, …) and admin lifecycle operations (`db_create`,
//! `ds_update:*`, …). Every entry carries its `privilege` so the two
//! logs stay self-describing if merged. A sink whose path is unset is
//! skipped. The library decides whether and what to write; appending
//! the line to the file is left to the caller.

use vstd::prelude::*;

use crate::foreign::{json_string_literal, quote_json};
use crate::text::{decimal, decimal_string};

verus! {

/// Which sink, and the `privilege` an entry carries.
#[derive(Debug, Clone, Copy, PartialEq, Eq, Structural)]
pub enum Privilege {
    Write,
    Admin,
}

pub open spec fn privilege_name(p: Privilege) -> Seq<char> {
    match p {
        Privilege::Write => "write"@,
        Privilege::Admin => "admin"@,
    }
}

/// The two sinks of the audit log; `None` disables a sink.
#[derive(Debug)]
pub struct AuditLog {
    write_path: Option<std::path::PathBuf>,
    admin_path: Option<std::path::PathBuf>,
}

/// A JSON value that is a string literal or `null`.
pub open spec fn json_opt(s: Option<Seq<char>>) -> Seq<char> {
    match s {
        Some(t) => json_string_literal(t),
        None => "null"@,
    }
}

/// One audit entry as a line of JSON: `ts`, `privilege`, `tool`,
/// `target`, `result` (`ok` or `err`), `error`, and `request_id` only
/// when there is one.
pub open spec fn audit_line_spec(
    ts: u64,
    privilege: Privilege,
    tool: Seq<char>,
    target: Option<Seq<char>>,
    error: Option<Seq<char>>,
    request_id: Option<Seq<char>>,
) -> Seq<char> {
    "{\"ts\":"@ + decimal(ts as nat) + ",\"privilege\":\""@ + privilege_name(privilege)
        + "\",\"tool\":"@ + json_string_literal(tool) + ",\"target\":"@ + json_opt(target)
        + ",\"result\":\""@ + (if error is None {
        "ok"@
    } else {
        "err"@
    }) + "\",\"error\":"@ + json_opt(error) + (match request_id {
        Some(r) => ",\"request_id\":"@ + json_string_literal(r),
        None => Seq::empty(),
    }) + "}"@
}

pub open spec fn opt_view(s: Option<&str>) -> Option<Seq<char>> {
    match s {
        Some(t) => Some(t@),
        None => None,
    }
}

pub open spec fn error_view(result: Result<(), &str>) -> Option<Seq<char>> {
    match result {
        Ok(()) => None,
        Err(m) => Some(m@),
    }
}

/// Append `t` quoted as a JSON string.
fn push_json(line: &mut String, t: &str)
    ensures
        final(line)@ == old(line)@ + json_string_literal(t@),
{
    match quote_json(t) {
        Ok(q) => line.append(q.as_str()),
        Err(_) => {},
    }
}

/// Append `v` quoted as JSON, or `null`. Never fails.
fn push_json_opt(line: &mut String, v: Option<&str>) -> (r: Result<(), serde_json::Error>)
    ensures
        r is Ok,
        final(line)@ == old(line)@ + json_opt(opt_view(v)),
{
    match v {
        Some(t) => {
            push_json(line, t);
            Ok(())
        },
        None => {
            line.append("null");
            Ok(())
        },
    }
}

/// The JSON line of one entry.
pub fn audit_line(
    ts: u64,
    privilege: Privilege,
    tool: &str,
    target: Option<&str>,
    result: Result<(), &str>,
    request_id: Option<&str>,
) -> (l: String)
    ensures
        l@ == audit_line_spec(
            ts,
            privilege,
            tool@,
            opt_view(target),
            error_view(result),
            opt_view(request_id),
        ),
{
    let mut line = String::new();
    line.append("{\"ts\":");
    let n = decimal_string(ts);
    line.append(n.as_str());
    line.append(",\"privilege\":\"");
    match privilege {
        Privilege::Write => line.append("write"),
        Privilege::Admin => line.append("admin"),
    }
    line.append("\",\"tool\":");
    push_json(&mut line, tool);
    line.append(",\"target\":");
    push_json_opt(&mut line, target);
    line.append(",\"result\":\"");
    let error: Option<&str> = match result {
        Ok(()) => {
            line.append("ok");
            None
        },
        Err(m) => {
            line.append("err");
            Some(m)
        },
    };
    line.append("\",\"error\":");
    push_json_opt(&mut line, error);
    if let Some(rid) = request_id {
        line.append(",\"request_id\":");
        push_json(&mut line, rid);
    }
    line.append("}");
    line
}

impl Default for AuditLog {
    fn default() -> (r: Self)
        ensures
            r.write_sink() is None,
            r.admin_sink() is None,
    {
        AuditLog { write_path: None, admin_path: None }
    }
}

impl AuditLog {
    pub closed spec fn write_sink(&self) -> Option<std::path::PathBuf> {
        self.write_path
    }

    pub closed spec fn admin_sink(&self) -> Option<std::path::PathBuf> {
        self.admin_path
    }

    /// Write-tier logging only: admin operations are not audited.
    pub fn new(write_path: Option<std::path::PathBuf>) -> (r: Self)
        ensures
            r.write_sink() == write_path,
            r.admin_sink() is None,
    {
        AuditLog { write_path, admin_path: None }
    }

    /// Both sinks; either may be `None` to disable that tier.
    pub fn new_with_admin(
        write_path: Option<std::path::PathBuf>,
        admin_path: Option<std::path::PathBuf>,
    ) -> (r: Self)
        ensures
            r.write_sink() == write_path,
            r.admin_sink() == admin_path,
    {
        AuditLog { write_path, admin_path }
    }

    /// The sink of a tier.
    pub open spec fn sink(&self, privilege: Privilege) -> Option<std::path::PathBuf> {
        match privilege {
            Privilege::Write => self.write_sink(),
            Privilege::Admin => self.admin_sink(),
        }
    }

    /// What to append for an entry of the given tier: nothing when the
    /// tier's sink is unset, else the sink and the entry's line (at
    /// time `ts`, seconds since the Unix epoch).
    pub fn entry(
        &self,
        privilege: Privilege,
        tool: &str,
        target: Option<&str>,
        result: Result<(), &str>,
        request_id: Option<&str>,
        ts: u64,
    ) -> (r: Option<(&std::path::PathBuf, String)>)
        ensures
            self.sink(privilege) is None ==> r is None,
            self.sink(privilege) matches Some(p) ==> (r matches Some((q, l)) && *q == p && l@ == audit_line_spec(
                ts,
                privilege,
                tool@,
                opt_view(target),
                error_view(result),
                opt_view(request_id),
            )),
    {
        let path = match privilege {
            Privilege::Write => &self.write_path,
            Privilege::Admin => &self.admin_path,
        };
        match path {
            None => None,
            Some(p) => Some((p, audit_line(ts, privilege, tool, target, result, request_id))),
        }
    }

    /// A runtime write operation, for the write sink.
    pub fn record(
        &self,
        tool: &str,
        target: Option<&str>,
        result: Result<(), &str>,
        request_id: Option<&str>,
        ts: u64,
    ) -> (r: Option<(&std::path::PathBuf, String)>)
        ensures
            self.write_sink() is None ==> r is None,
            self.write_sink() matches Some(p) ==> (r matches Some((q, l)) && *q == p && l@ == audit_line_spec(
                ts,
                Privilege::Write,
                tool@,
                opt_view(target),
                error_view(result),
                opt_view(request_id),
            )),
    {
        self.entry(Privilege::Write, tool, target, result, request_id, ts)
    }

    /// An admin lifecycle operation, for the admin sink.
    pub fn record_admin(
        &self,
        tool: &str,
        target: Option<&str>,
        result: Result<(), &str>,
        request_id: Option<&str>,
        ts: u64,
    ) -> (r: Option<(&std::path::PathBuf, String)>)
        ensures
            self.admin_sink() is None ==> r is None,
            self.admin_sink() matches Some(p) ==> (r matches Some((q, l)) && *q == p && l@ == audit_line_spec(
                ts,
                Privilege::Admin,
                tool@,
                opt_view(target),
                error_view(result),
                opt_view(request_id),
            )),
    {
        self.entry(Privilege::Admin, tool, target, result, request_id, ts)
    }
}

} // verus!
