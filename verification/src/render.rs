//! Content rendering: the template store, token substitution into each of
//! the four templates, and resolution of target identifiers to compiled
//! library paths for the manifest's `[libraries]` section.

use vstd::prelude::*;
use crate::naming::{camel_chars, symbol_case};
use crate::text::{chars_eq, chars_to_string, push_all, replace_all, replace_chars, str_chars};

verus! {

/// The four template bodies, loaded once at startup and shared by every
/// materialization. A partial set is never valid: absence is modeled as
/// the whole set being unavailable (`Option<ProjectTemplates>` is `None`).
#[derive(Clone)]
pub struct ProjectTemplates {
    pub gitignore: String,
    pub lib_content: String,
    pub gdextension: String,
    pub cargo_toml: String,
}

/// The mathematical content of a template set: the four bodies as
/// character sequences.
pub struct TemplatesModel {
    pub gitignore: Seq<char>,
    pub lib_content: Seq<char>,
    pub gdextension: Seq<char>,
    pub cargo_toml: Seq<char>,
}

impl View for ProjectTemplates {
    type V = TemplatesModel;

    open spec fn view(&self) -> TemplatesModel {
        TemplatesModel {
            gitignore: self.gitignore@,
            lib_content: self.lib_content@,
            gdextension: self.gdextension@,
            cargo_toml: self.cargo_toml@,
        }
    }
}

/// The placeholder token that every template may carry for the project name.
pub open spec fn name_token() -> Seq<char> {
    "{project_name}"@
}

/// The ignore-file render: an identity passthrough of its template.
pub fn get_gitignore_content(templates: &ProjectTemplates) -> (r: String)
    ensures
        r@ == templates@.gitignore,
{
    templates.gitignore.clone()
}

/// The library-source render: the name placeholder replaced by the
/// symbol-cased project name (not the raw name).
pub open spec fn lib_source_content(lib_t: Seq<char>, name: Seq<char>) -> Seq<char> {
    replace_all(lib_t, name_token(), symbol_case(name))
}

/// Renders the library source stub for `project_name`.
pub fn get_lib_content(templates: &ProjectTemplates, project_name: &str) -> (r: String)
    ensures
        r@ == lib_source_content(templates@.lib_content, project_name@),
{
    proof {
        reveal_strlit("{project_name}");
    }
    let t = str_chars(templates.lib_content.as_str());
    let pat = str_chars("{project_name}");
    let name_cs = str_chars(project_name);
    let rep = camel_chars(&name_cs);
    let out = replace_chars(&t, &pat, &rep);
    chars_to_string(&out)
}

/// The build-manifest render: the name placeholder replaced by the raw
/// project name.
pub open spec fn build_manifest_content(cargo_t: Seq<char>, name: Seq<char>) -> Seq<char> {
    replace_all(cargo_t, name_token(), name)
}

/// Renders the build-manifest (package configuration) for `project_name`.
pub fn get_cargo_toml_content(templates: &ProjectTemplates, project_name: &str) -> (r: String)
    ensures
        r@ == build_manifest_content(templates@.cargo_toml, project_name@),
{
    proof {
        reveal_strlit("{project_name}");
    }
    let t = str_chars(templates.cargo_toml.as_str());
    let pat = str_chars("{project_name}");
    let rep = str_chars(project_name);
    let out = replace_chars(&t, &pat, &rep);
    chars_to_string(&out)
}

/// The library path that a target identifier stands for: a closed switch
/// over the six known (platform, profile) identifiers, each yielding
/// `res://rust/target/<profile>/<prefix><name><ext>` with the platform's
/// library prefix and extension. Unknown identifiers yield nothing.
pub open spec fn resolve_spec(target: Seq<char>, name: Seq<char>) -> Option<Seq<char>> {
    if target == "linux.debug.x86_64"@ {
        Some("res://rust/target/debug/lib"@ + name + ".so"@)
    } else if target == "linux.release.x86_64"@ {
        Some("res://rust/target/release/lib"@ + name + ".so"@)
    } else if target == "windows.debug.x86_64"@ {
        Some("res://rust/target/debug/"@ + name + ".dll"@)
    } else if target == "windows.release.x86_64"@ {
        Some("res://rust/target/release/"@ + name + ".dll"@)
    } else if target == "macos.debug"@ {
        Some("res://rust/target/debug/lib"@ + name + ".dylib"@)
    } else if target == "macos.release"@ {
        Some("res://rust/target/release/lib"@ + name + ".dylib"@)
    } else {
        None
    }
}

/// Whether two strings hold the same characters.
fn str_eq(a: &str, b: &str) -> (r: bool)
    ensures
        r <==> a@ == b@,
{
    let av = str_chars(a);
    let bv = str_chars(b);
    chars_eq(&av, &bv)
}

/// Concatenates a fixed prefix, a name, and a fixed suffix.
fn concat3(prefix: &str, mid: &str, suffix: &str) -> (r: String)
    ensures
        r@ == prefix@ + mid@ + suffix@,
{
    let mut s = String::from_str(prefix);
    s.append(mid);
    s.append(suffix);
    s
}

/// Maps a target identifier to its expected compiled-library path for
/// `project_name`; unknown identifiers yield `None` (a silent skip, not
/// an error).
pub fn resolve(target: &str, project_name: &str) -> (r: Option<String>)
    ensures
        match r {
            Some(p) => resolve_spec(target@, project_name@) == Some(p@),
            None => resolve_spec(target@, project_name@) is None,
        },
{
    if str_eq(target, "linux.debug.x86_64") {
        Some(concat3("res://rust/target/debug/lib", project_name, ".so"))
    } else if str_eq(target, "linux.release.x86_64") {
        Some(concat3("res://rust/target/release/lib", project_name, ".so"))
    } else if str_eq(target, "windows.debug.x86_64") {
        Some(concat3("res://rust/target/debug/", project_name, ".dll"))
    } else if str_eq(target, "windows.release.x86_64") {
        Some(concat3("res://rust/target/release/", project_name, ".dll"))
    } else if str_eq(target, "macos.debug") {
        Some(concat3("res://rust/target/debug/lib", project_name, ".dylib"))
    } else if str_eq(target, "macos.release") {
        Some(concat3("res://rust/target/release/lib", project_name, ".dylib"))
    } else {
        None
    }
}

/// One `[libraries]` line: `<target> = "<path>"` and a newline.
pub open spec fn target_line(target: Seq<char>, path: Seq<char>) -> Seq<char> {
    target + " = \""@ + path + "\"\n"@
}

/// The lines of the `[libraries]` section: one per target whose identifier
/// resolves, in input order; targets that fail to resolve contribute
/// nothing.
pub open spec fn libraries_lines(targets: Seq<Seq<char>>, name: Seq<char>) -> Seq<char>
    decreases targets.len(),
{
    if targets.len() == 0 {
        Seq::empty()
    } else {
        (match resolve_spec(targets[0], name) {
            Some(p) => target_line(targets[0], p),
            None => Seq::empty(),
        }) + libraries_lines(targets.skip(1), name)
    }
}

/// The default-version marker: the full default-valued line text that the
/// version substitution matches on.
pub open spec fn version_marker() -> Seq<char> {
    "compatibility_minimum = 4.2"@
}

/// The text that replaces the default-version marker: the same line
/// carrying the supplied version string.
pub open spec fn version_line(version: Seq<char>) -> Seq<char> {
    "compatibility_minimum = "@ + version
}

/// The default-reload marker: the full default-valued line text that the
/// reload substitution matches on.
pub open spec fn reload_marker() -> Seq<char> {
    "reloadable = true"@
}

/// The text that replaces the default-reload marker: the same line
/// carrying the reload flag rendered as `true` or `false`.
pub open spec fn reload_line(reloadable: bool) -> Seq<char> {
    "reloadable = "@ + (if reloadable {
        "true"@
    } else {
        "false"@
    })
}

/// The manifest render before its target section: the name placeholder
/// replaced by the raw project name, the literal default-version marker
/// line replaced by one carrying the supplied version, and the literal
/// default-reload marker line replaced by one carrying the reload flag.
/// The two marker replacements match on the full default-valued text, so
/// they fire only when the template's defaults are exactly those strings.
pub open spec fn manifest_base(
    gdext_t: Seq<char>,
    name: Seq<char>,
    version: Seq<char>,
    reloadable: bool,
) -> Seq<char> {
    let with_name = replace_all(gdext_t, name_token(), name);
    let with_version = replace_all(with_name, version_marker(), version_line(version));
    replace_all(with_version, reload_marker(), reload_line(reloadable))
}

/// The full manifest: the rendered base, then a `[libraries]` header, then
/// one line per resolvable target. With zero resolvable targets the header
/// still appears, with no following lines.
pub open spec fn manifest_content(
    gdext_t: Seq<char>,
    name: Seq<char>,
    version: Seq<char>,
    reloadable: bool,
    targets: Seq<Seq<char>>,
) -> Seq<char> {
    manifest_base(gdext_t, name, version, reloadable) + "[libraries]\n"@ + libraries_lines(
        targets,
        name,
    )
}

/// Renders the manifest for `project_name`: raw-name substitution, the two
/// default-marker substitutions, and the `[libraries]` section listing the
/// resolvable targets in input order.
pub fn get_gdextension_content(
    templates: &ProjectTemplates,
    project_name: &str,
    godot_version: &str,
    reloadable: bool,
    targets: &Vec<String>,
) -> (r: String)
    ensures
        r@ == manifest_content(
            templates@.gdextension,
            project_name@,
            godot_version@,
            reloadable,
            targets.deep_view(),
        ),
{
    proof {
        reveal_strlit("{project_name}");
        reveal_strlit("compatibility_minimum = 4.2");
        reveal_strlit("reloadable = true");
    }
    let t = str_chars(templates.gdextension.as_str());
    let name_cs = str_chars(project_name);
    let pat_name = str_chars("{project_name}");
    let with_name = replace_chars(&t, &pat_name, &name_cs);
    let pat_version = str_chars("compatibility_minimum = 4.2");
    let mut rep_version = str_chars("compatibility_minimum = ");
    let ver = str_chars(godot_version);
    push_all(&mut rep_version, &ver);
    let with_version = replace_chars(&with_name, &pat_version, &rep_version);
    let pat_reload = str_chars("reloadable = true");
    let mut rep_reload = str_chars("reloadable = ");
    let flag = if reloadable {
        str_chars("true")
    } else {
        str_chars("false")
    };
    push_all(&mut rep_reload, &flag);
    let mut out = replace_chars(&with_version, &pat_reload, &rep_reload);
    let header = str_chars("[libraries]\n");
    push_all(&mut out, &header);
    let ghost base = manifest_base(
        templates@.gdextension,
        project_name@,
        godot_version@,
        reloadable,
    ) + "[libraries]\n"@;
    let ghost tv = targets.deep_view();
    assert(out@ =~= base);
    let mut i: usize = 0;
    proof {
        assert(tv.skip(0) =~= tv);
        assert(base + Seq::<char>::empty() =~= base);
    }
    while i < targets.len()
        invariant
            i <= targets@.len(),
            tv == targets.deep_view(),
            tv.len() == targets@.len(),
            manifest_content(
                templates@.gdextension,
                project_name@,
                godot_version@,
                reloadable,
                tv,
            ) == out@ + libraries_lines(tv.skip(i as int), project_name@),
        decreases targets@.len() - i,
    {
        let ghost prev = out@;
        assert(tv[i as int] == targets@[i as int]@);
        match resolve((&targets[i]).as_str(), project_name) {
            Some(p) => {
                let tc = str_chars((&targets[i]).as_str());
                push_all(&mut out, &tc);
                let sep = str_chars(" = \"");
                push_all(&mut out, &sep);
                let pc = str_chars(p.as_str());
                push_all(&mut out, &pc);
                let close = str_chars("\"\n");
                push_all(&mut out, &close);
                proof {
                    assert(out@ =~= prev + target_line(tv[i as int], p@));
                }
            },
            None => {},
        }
        proof {
            assert(tv.skip(i as int).skip(1) =~= tv.skip(i as int + 1));
            assert(out@ + libraries_lines(tv.skip(i as int + 1), project_name@) =~= prev
                + libraries_lines(tv.skip(i as int), project_name@));
        }
        i = i + 1;
    }
    proof {
        assert(tv.skip(i as int) =~= Seq::<Seq<char>>::empty());
        assert(libraries_lines(tv.skip(i as int), project_name@) =~= Seq::<char>::empty());
        assert(out@ =~= out@ + Seq::<char>::empty());
    }
    chars_to_string(&out)
}

} // verus!
