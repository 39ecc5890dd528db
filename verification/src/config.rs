//! The user-override gate of the resolution.
//!
//! The initialization options may carry an `lsp` section with a `serverPath`
//! and `serverArgs`. A non-empty `serverPath` is an absolute override: the
//! rest of the pipeline (platform gate, installer, location builder) is then
//! skipped. Arguments are only meaningful together with such a path.

use vstd::prelude::*;

use crate::json::JsonValue;

verus! {

/// A user-supplied server location and launch arguments.
pub struct ServerOverride {
    pub path: String,
    pub args: Vec<String>,
}

/// The `lsp` section of the initialization options, if any.
pub open spec fn spec_lsp_section(options: Option<JsonValue>) -> Option<JsonValue> {
    match options {
        Some(o) => o.spec_get("lsp"@),
        None => None,
    }
}

/// The string entries among the first `n` array items, in order; entries of
/// any other kind are silently skipped.
pub open spec fn spec_string_entries_prefix(items: Seq<JsonValue>, n: int) -> Seq<String>
    decreases n,
{
    if n <= 0 {
        Seq::empty()
    } else {
        let prev = spec_string_entries_prefix(items, n - 1);
        match items[n - 1] {
            JsonValue::Str(s) => prev.push(s),
            _ => prev,
        }
    }
}

/// The string entries of an array, in order.
pub open spec fn spec_string_entries(items: Seq<JsonValue>) -> Seq<String> {
    spec_string_entries_prefix(items, items.len() as int)
}

/// The launch arguments the options carry: the string entries of
/// `lsp.serverArgs` when that member is an array, and nothing otherwise.
pub open spec fn spec_server_args(options: Option<JsonValue>) -> Seq<String> {
    match spec_lsp_section(options) {
        Some(lsp) => match lsp.spec_get("serverArgs"@) {
            Some(JsonValue::Array(items)) => spec_string_entries(items@),
            _ => Seq::<String>::empty(),
        },
        None => Seq::<String>::empty(),
    }
}

/// The override path: `lsp.serverPath` when it is a non-empty string.
pub open spec fn spec_server_path(options: Option<JsonValue>) -> Option<String> {
    match spec_lsp_section(options) {
        Some(lsp) => match lsp.spec_get("serverPath"@) {
            Some(v) => match v {
                JsonValue::Str(s) => if s@.len() > 0 {
                    Some(s)
                } else {
                    None
                },
                _ => None,
            },
            None => None,
        },
        None => None,
    }
}

/// Extract the user override, if the options carry one.
///
/// The override exists exactly when `lsp.serverPath` is a non-empty string;
/// its arguments are the string entries of `lsp.serverArgs`, in order.
pub fn resolve_override(options: &Option<JsonValue>) -> (r: Option<ServerOverride>)
    ensures
        r is Some <==> spec_server_path(*options) is Some,
        r matches Some(ov) ==> Some(ov.path) == spec_server_path(*options) && ov.args@
            == spec_server_args(*options),
{
    let lsp = match options {
        Some(o) => match o.get("lsp") {
            Some(l) => l,
            None => {
                return None;
            },
        },
        None => {
            return None;
        },
    };
    let mut args: Vec<String> = Vec::new();
    match lsp.get("serverArgs") {
        Some(v) => match v {
            JsonValue::Array(items) => {
                let m = items.len();
                let mut j: usize = 0;
                while j < m
                    invariant
                        m == items@.len(),
                        0 <= j <= m,
                        args@ == spec_string_entries_prefix(items@, j as int),
                    decreases m - j,
                {
                    match &items[j] {
                        JsonValue::Str(s) => {
                            args.push(s.clone());
                        },
                        _ => {},
                    }
                    j = j + 1;
                }
            },
            _ => {},
        },
        None => {},
    }
    match lsp.get("serverPath") {
        Some(v) => match v {
            JsonValue::Str(s) => {
                if s.as_str().is_empty() {
                    None
                } else {
                    Some(ServerOverride { path: s.clone(), args })
                }
            },
            _ => None,
        },
        None => None,
    }
}

} // verus!
