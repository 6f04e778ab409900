//! The library's stated laws: properties that hold of every request, over
//! and above each function's own contract.

use vstd::prelude::*;
use crate::naming::symbol_case;
use crate::plan::{descriptor_content, plan_actions, FsActionModel};
use crate::render::{
    build_manifest_content, lib_source_content, libraries_lines, manifest_base, manifest_content,
    name_token, reload_line, reload_marker, resolve_spec, version_line, version_marker,
    TemplatesModel,
};
use crate::text::{lemma_replace_all_absent, lemma_replace_all_nonempty, occurs, occurs_at,
    replace_all};

verus! {

/// Whether `a` writes a non-empty content to `path`.
pub open spec fn writes_nonempty(a: FsActionModel, path: Seq<char>) -> bool {
    match a {
        FsActionModel::WriteFile { path: p, content: c } => p == path && c.len() > 0,
        FsActionModel::CreateDir { .. } => false,
    }
}

/// Law: every accepted request's plan writes exactly five files — the
/// descriptor, the build-manifest, the ignore file, the library source and
/// the manifest — each with non-empty content. The non-emptiness asks that
/// each rendered template be non-empty and that the name keep at least one
/// character once symbol-cased; a template that is empty, or a name of
/// underscores alone against a template that is nothing but the name
/// placeholder, yields an empty file instead.
pub proof fn lemma_plan_writes_five_nonempty_files(
    name: Seq<char>,
    t: TemplatesModel,
    version: Seq<char>,
    reloadable: bool,
    targets: Seq<Seq<char>>,
)
    requires
        name.len() > 0,
        t.gitignore.len() > 0,
        t.lib_content.len() > 0,
        t.cargo_toml.len() > 0,
        symbol_case(name).len() > 0,
    ensures
        ({
            let acts = plan_actions(name, t, version, reloadable, targets);
            &&& acts.len() == 8
            &&& writes_nonempty(acts[1], name + "/project.godot"@)
            &&& writes_nonempty(acts[4], name + "/rust/Cargo.toml"@)
            &&& writes_nonempty(acts[5], name + "/rust/.gitignore"@)
            &&& writes_nonempty(acts[6], name + "/rust/src/lib.rs"@)
            &&& writes_nonempty(acts[7], name + "/"@ + name + ".gdextension"@)
            &&& forall|i: int|
                0 <= i < acts.len() && acts[i] is WriteFile ==> (i == 1 || i == 4 || i == 5 || i
                    == 6 || i == 7)
        }),
{
    reveal_strlit("{project_name}");
    reveal_strlit("[gd_project]\nversion=4.0\nrun/main_scene=\"res://main.tscn\"\n");
    reveal_strlit("[libraries]\n");
    assert(descriptor_content().len() > 0);
    lemma_replace_all_nonempty(t.cargo_toml, name_token(), name);
    lemma_replace_all_nonempty(t.lib_content, name_token(), symbol_case(name));
    assert(manifest_content(t.gdextension, name, version, reloadable, targets).len() > 0);
}

/// Law: with zero resolvable targets the rendered manifest is the rendered
/// base followed by the `[libraries]` header and nothing further.
pub proof fn lemma_manifest_no_resolvable_targets(
    gdext_t: Seq<char>,
    name: Seq<char>,
    version: Seq<char>,
    reloadable: bool,
    targets: Seq<Seq<char>>,
)
    requires
        forall|i: int| 0 <= i < targets.len() ==> resolve_spec(#[trigger] targets[i], name) is None,
    ensures
        manifest_content(gdext_t, name, version, reloadable, targets) == manifest_base(
            gdext_t,
            name,
            version,
            reloadable,
        ) + "[libraries]\n"@,
{
    lemma_libraries_lines_all_unresolvable(targets, name);
    assert(manifest_base(gdext_t, name, version, reloadable) + "[libraries]\n"@
        + Seq::<char>::empty() =~= manifest_base(gdext_t, name, version, reloadable)
        + "[libraries]\n"@);
}

/// The `[libraries]` lines of a target list in which nothing resolves are
/// empty.
pub proof fn lemma_libraries_lines_all_unresolvable(targets: Seq<Seq<char>>, name: Seq<char>)
    requires
        forall|i: int| 0 <= i < targets.len() ==> resolve_spec(#[trigger] targets[i], name) is None,
    ensures
        libraries_lines(targets, name) == Seq::<char>::empty(),
    decreases targets.len(),
{
    if targets.len() == 0 {
    } else {
        assert(resolve_spec(targets[0], name) is None);
        assert forall|i: int| 0 <= i < targets.skip(1).len() implies resolve_spec(
            #[trigger] targets.skip(1)[i],
            name,
        ) is None by {
            assert(targets.skip(1)[i] == targets[i + 1]);
        }
        lemma_libraries_lines_all_unresolvable(targets.skip(1), name);
        assert(Seq::<char>::empty() + Seq::<char>::empty() =~= Seq::<char>::empty());
    }
}

/// Law: a manifest template that holds no name placeholder and each
/// default marker exactly once — given as `a`, the version marker, `b`,
/// the reload marker, `c`, with no occurrence of either marker elsewhere —
/// renders with each marker replaced exactly once and all other template
/// text byte-identical.
pub proof fn lemma_manifest_markers_replaced_once(
    a: Seq<char>,
    b: Seq<char>,
    c: Seq<char>,
    name: Seq<char>,
    version: Seq<char>,
    reloadable: bool,
)
    requires
        !occurs(a + version_marker() + b + reload_marker() + c, name_token()),
        forall|i: int|
            0 <= i < a.len() ==> !occurs_at(
                a + version_marker() + b + reload_marker() + c,
                version_marker(),
                i,
            ),
        !occurs(b + reload_marker() + c, version_marker()),
        forall|i: int|
            0 <= i < a.len() + version_line(version).len() + b.len() ==> !occurs_at(
                a + version_line(version) + b + reload_marker() + c,
                reload_marker(),
                i,
            ),
        !occurs(c, reload_marker()),
    ensures
        manifest_base(a + version_marker() + b + reload_marker() + c, name, version, reloadable)
            == a + version_line(version) + b + reload_line(reloadable) + c,
{
    reveal_strlit("{project_name}");
    reveal_strlit("compatibility_minimum = 4.2");
    reveal_strlit("reloadable = true");
    let t = a + version_marker() + b + reload_marker() + c;
    lemma_replace_all_absent(t, name_token(), name);
    let b1 = b + reload_marker() + c;
    assert(t =~= a + version_marker() + b1);
    lemma_replace_all_single_occurrence(a, version_marker(), b1, version_line(version));
    let a2 = a + version_line(version) + b;
    assert(a + version_line(version) + b1 =~= a2 + reload_marker() + c);
    assert(a + version_line(version) + b + reload_marker() + c =~= a2 + reload_marker() + c);
    lemma_replace_all_single_occurrence(a2, reload_marker(), c, reload_line(reloadable));
    assert(manifest_base(t, name, version, reloadable) =~= a + version_line(version) + b
        + reload_line(reloadable) + c);
}

/// Law: the five file paths of an accepted request's plan are pairwise
/// distinct, so the plan writes five separate files.
pub proof fn lemma_plan_file_paths_distinct(name: Seq<char>)
    requires
        name.len() > 0,
    ensures
        ({
            let p_descriptor = name + "/project.godot"@;
            let p_build = name + "/rust/Cargo.toml"@;
            let p_ignore = name + "/rust/.gitignore"@;
            let p_lib = name + "/rust/src/lib.rs"@;
            let p_manifest = name + "/"@ + name + ".gdextension"@;
            &&& p_descriptor != p_build
            &&& p_descriptor != p_ignore
            &&& p_descriptor != p_lib
            &&& p_descriptor != p_manifest
            &&& p_build != p_ignore
            &&& p_build != p_lib
            &&& p_build != p_manifest
            &&& p_ignore != p_lib
            &&& p_ignore != p_manifest
            &&& p_lib != p_manifest
        }),
{
    reveal_strlit("/project.godot");
    reveal_strlit("/rust/Cargo.toml");
    reveal_strlit("/rust/.gitignore");
    reveal_strlit("/rust/src/lib.rs");
    reveal_strlit("/");
    reveal_strlit(".gdextension");
    let l = name.len() as int;
    let p_descriptor = name + "/project.godot"@;
    let p_build = name + "/rust/Cargo.toml"@;
    let p_ignore = name + "/rust/.gitignore"@;
    let p_lib = name + "/rust/src/lib.rs"@;
    let p_manifest = name + "/"@ + name + ".gdextension"@;
    // The descriptor path is shorter than the three build-tree paths.
    assert(p_descriptor.len() == l + 14);
    assert(p_build.len() == l + 16);
    assert(p_ignore.len() == l + 16);
    assert(p_lib.len() == l + 16);
    assert(p_manifest.len() == l + l + 13);
    // The three build-tree paths differ under `rust/` at position 6.
    assert(p_build != p_ignore) by {
        assert(p_build[l + 6] == 'C');
        assert(p_ignore[l + 6] == '.');
    }
    assert(p_build != p_lib) by {
        assert(p_build[l + 6] == 'C');
        assert(p_lib[l + 6] == 's');
    }
    assert(p_ignore != p_lib) by {
        assert(p_ignore[l + 6] == '.');
        assert(p_lib[l + 6] == 's');
    }
    // The manifest path matches another path's length only for one name
    // length each, and then differs where its name ends in `.gdextension`.
    assert(p_descriptor != p_manifest) by {
        if p_descriptor == p_manifest {
            assert(l == 1);
            assert(p_descriptor[3] == 'r');
            assert(p_manifest[3] == '.');
        }
    }
    assert(p_build != p_manifest) by {
        if p_build == p_manifest {
            assert(l == 3);
            assert(p_build[7] == 't');
            assert(p_manifest[7] == '.');
        }
    }
    assert(p_ignore != p_manifest) by {
        if p_ignore == p_manifest {
            assert(l == 3);
            assert(p_ignore[7] == 't');
            assert(p_manifest[7] == '.');
        }
    }
    assert(p_lib != p_manifest) by {
        if p_lib == p_manifest {
            assert(l == 3);
            assert(p_lib[7] == 't');
            assert(p_manifest[7] == '.');
        }
    }
}

/// Law: a pattern that occurs exactly once is replaced exactly once, and
/// every other character of the text is left byte-identical. The text is
/// given as `a + pat + b` with no occurrence of the pattern starting in
/// `a` and none in `b`; the result is `a + rep + b` exactly.
pub proof fn lemma_replace_all_single_occurrence(
    a: Seq<char>,
    pat: Seq<char>,
    b: Seq<char>,
    rep: Seq<char>,
)
    requires
        pat.len() > 0,
        forall|i: int| 0 <= i < a.len() ==> !occurs_at(a + pat + b, pat, i),
        !occurs(b, pat),
    ensures
        replace_all(a + pat + b, pat, rep) == a + rep + b,
    decreases a.len(),
{
    let s = a + pat + b;
    if a.len() == 0 {
        assert(s =~= pat + b);
        assert(s.subrange(0, pat.len() as int) =~= pat);
        assert(s.skip(pat.len() as int) =~= b);
        lemma_replace_all_absent(b, pat, rep);
        assert(a + rep + b =~= rep + b);
    } else {
        assert(!occurs_at(s, pat, 0));
        assert(s.subrange(0, pat.len() as int) != pat);
        let s1 = a.skip(1) + pat + b;
        assert(s1 =~= s.skip(1));
        assert forall|i: int| 0 <= i < a.skip(1).len() implies !occurs_at(s1, pat, i) by {
            if occurs_at(s1, pat, i) {
                assert(s.subrange(i + 1, i + 1 + pat.len()) =~= s1.subrange(i, i + pat.len()));
                assert(occurs_at(s, pat, i + 1));
            }
        }
        lemma_replace_all_single_occurrence(a.skip(1), pat, b, rep);
        assert(replace_all(s, pat, rep) =~= a + rep + b);
    }
}

} // verus!
