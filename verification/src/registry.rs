//! Registry-derived probe outcomes: the Click-to-Run configuration model,
//! the exclusion decision for Click-to-Run product identifiers, and the
//! always-negative probe variants used on hosts without the native
//! registry subsystem.

use vstd::prelude::*;
use vstd::string::StringExecFns;
use crate::text;

verus! {

/// Facts about a centrally-managed (Click-to-Run) installation, read from
/// its shared configuration key.
pub struct ClickToRunInfo {
    pub install_path: String,
    pub product_ids: String,
    pub version: Option<String>,
}

/// Merges the three values read under the Click-to-Run configuration key
/// into one finding. A missing installation path means no Click-to-Run
/// installation at all; missing product identifiers read as empty; the
/// reported version stays optional.
pub fn find_click_to_run(
    install_path: Option<String>,
    product_ids: Option<String>,
    version: Option<String>,
) -> (r: Option<ClickToRunInfo>)
    ensures
        install_path is None ==> r is None,
        install_path matches Some(p) ==> (r matches Some(info) && info.install_path@ == p@
            && (match product_ids {
            Some(q) => info.product_ids@ == q@,
            None => info.product_ids@ == Seq::<char>::empty(),
        }) && info.version == version),
{
    match install_path {
        None => None,
        Some(p) => {
            let ids = match product_ids {
                Some(q) => q,
                None => String::new(),
            };
            Some(ClickToRunInfo { install_path: p, product_ids: ids, version })
        },
    }
}

/// An `ExcludedApps` value was present and names the application, up to
/// ASCII case.
pub open spec fn value_names_app(v: Option<String>, app_name: Seq<char>) -> bool {
    v matches Some(s) && text::contains_ci(s@, app_name)
}

/// Whether any of the `ExcludedApps` values read for the product
/// identifiers names `app_name`, up to ASCII case. A missing value means
/// the application is included in that product.
pub fn is_c2r_app_excluded(excluded_values: &Vec<Option<String>>, app_name: &str) -> (r: bool)
    ensures
        r == exists|i: int|
            0 <= i < excluded_values@.len() && #[trigger] value_names_app(
                excluded_values@[i],
                app_name@,
            ),
{
    let mut i: usize = 0;
    while i < excluded_values.len()
        invariant
            i <= excluded_values@.len(),
            forall|k: int| 0 <= k < i ==> !value_names_app(excluded_values@[k], app_name@),
        decreases excluded_values@.len() - i,
    {
        match &excluded_values[i] {
            Some(v) => {
                if text::contains_substring_ci(v.as_str(), app_name) {
                    proof {
                        assert(value_names_app(excluded_values@[i as int], app_name@));
                    }
                    return true;
                }
            },
            None => {},
        }
        i = i + 1;
    }
    false
}

/// The product identifiers written as a comma-separated list: each
/// segment trimmed of ASCII whitespace, empty segments dropped, order
/// kept.
pub open spec fn product_id_list(s: Seq<char>) -> Seq<Seq<char>>
    decreases s.len(),
{
    let k = text::first_comma(s);
    if k < 0 || k >= s.len() {
        if text::trim_spec(s).len() > 0 {
            seq![text::trim_spec(s)]
        } else {
            Seq::empty()
        }
    } else {
        let head = text::trim_spec(s.take(k));
        let rest = product_id_list(s.skip(k + 1));
        if head.len() > 0 {
            seq![head] + rest
        } else {
            rest
        }
    }
}

/// Splits a comma-separated product-identifier list into its non-empty,
/// whitespace-trimmed segments, in order.
pub fn split_product_ids(product_ids: &str) -> (r: Vec<String>)
    ensures
        r.deep_view() == product_id_list(product_ids@),
{
    let len = product_ids.unicode_len();
    let mut out: Vec<String> = Vec::new();
    let mut pos: usize = 0;
    proof {
        assert(product_ids@.skip(0) =~= product_ids@);
        assert(out.deep_view() + product_id_list(product_ids@) =~~= product_id_list(
            product_ids@,
        ));
    }
    loop
        invariant_except_break
            len == product_ids@.len(),
            pos <= len,
            product_id_list(product_ids@) == out.deep_view() + product_id_list(
                product_ids@.skip(pos as int),
            ),
        ensures
            out.deep_view() == product_id_list(product_ids@),
        decreases len - pos,
    {
        let mut j = pos;
        while j < len && !is_comma_char(product_ids.get_char(j))
            invariant
                len == product_ids@.len(),
                pos <= j <= len,
                forall|t: int| pos <= t < j ==> product_ids@[t] != ',',
            decreases len - j,
        {
            j = j + 1;
        }
        let piece = text::trimmed_segment(product_ids, pos, j);
        let ghost suffix = product_ids@.skip(pos as int);
        proof {
            text::lemma_first_comma(suffix);
            let fc = text::first_comma(suffix);
            if fc < j - pos {
                assert(suffix[fc] == product_ids@[pos + fc]);
                assert(false);
            }
            if j < len && j - pos < fc {
                assert(suffix[j - pos] == product_ids@[j as int]);
                assert(false);
            }
            assert(suffix.take(j - pos) =~= product_ids@.subrange(pos as int, j as int));
        }
        let ghost out_before = out.deep_view();
        if j < len {
            proof {
                assert(text::first_comma(suffix) == j - pos);
                assert(suffix.skip(j - pos + 1) =~= product_ids@.skip(j + 1));
            }
            if !piece.as_str().is_empty() {
                out.push(piece);
                proof {
                    assert(out.deep_view() =~~= out_before + seq![piece@]);
                    assert(product_id_list(product_ids@) =~~= out.deep_view() + product_id_list(
                        product_ids@.skip(j + 1),
                    ));
                }
            } else {
                proof {
                    assert(product_id_list(product_ids@) =~~= out.deep_view() + product_id_list(
                        product_ids@.skip(j + 1),
                    ));
                }
            }
            pos = j + 1;
        } else {
            proof {
                assert(text::first_comma(suffix) >= suffix.len());
                assert(suffix =~= product_ids@.subrange(pos as int, j as int));
            }
            if !piece.as_str().is_empty() {
                out.push(piece);
                proof {
                    assert(out.deep_view() =~~= out_before + seq![piece@]);
                    assert(out.deep_view() =~~= product_id_list(product_ids@));
                }
            } else {
                proof {
                    assert(out.deep_view() =~~= product_id_list(product_ids@));
                }
            }
            break;
        }
    }
    out
}

fn is_comma_char(c: char) -> (r: bool)
    ensures
        r == (c == ','),
{
    c == ','
}

/// The two registry subkeys that can carry a per-version, per-component
/// installation root: the native hive location and its 32-bit reflected
/// counterpart, in that probing order.
pub fn office_install_root_subkeys(app: &str, version: &str) -> (r: (String, String))
    ensures
        r.0@ == "SOFTWARE\\Microsoft\\Office\\"@ + version@ + "\\"@ + app@ + "\\InstallRoot"@,
        r.1@ == "SOFTWARE\\WOW6432Node\\Microsoft\\Office\\"@ + version@ + "\\"@ + app@
            + "\\InstallRoot"@,
{
    let native = "SOFTWARE\\Microsoft\\Office\\".to_owned().concat(version).concat("\\").concat(
        app,
    ).concat("\\InstallRoot");
    let reflected = "SOFTWARE\\WOW6432Node\\Microsoft\\Office\\".to_owned().concat(version).concat(
        "\\",
    ).concat(app).concat("\\InstallRoot");
    (native, reflected)
}

/// Probe variant for hosts without the native registry subsystem: the
/// installation-root lookup reports absence.
pub fn find_office_install_root(_app: &str, _version: &str) -> (r: Option<String>)
    ensures
        r is None,
{
    None
}

/// Probe variant for hosts without the native registry subsystem: the
/// numeric-value lookup reports absence.
pub fn read_reg_dword(_root: u32, _subkey: &str, _value_name: &str) -> (r: Option<u32>)
    ensures
        r is None,
{
    None
}

/// Probe variant for hosts without the native automation subsystem: the
/// activation handshake reports failure.
pub fn test_com_activation(_prog_id: &str) -> (r: Result<(), String>)
    ensures
        r matches Err(m) && m@ == "Not on Windows"@,
{
    Err("Not on Windows".to_owned())
}

} // verus!
