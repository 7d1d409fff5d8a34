//! Custom Rust target specifications for Cosmopolitan, derived from the
//! selected nightly's Linux GNU specification of each architecture.
use vstd::prelude::*;
use vstd::string::StringSliceAdditionalSpecFns;
use vstd::utf8::encode_utf8;
use serde_json::Value;
use crate::bytes::{byte_strings, concat, to_vec};
use crate::launch::ToolCommand;
use crate::packaging::push_arg;
use crate::paths::Toolchain;
use crate::json::{
    json_error_text, json_flags, json_is_object, json_keys, json_lists, json_map_insert, json_map_new,
    json_map_remove, json_object_from_slice, json_object_of, json_object_pretty, json_objects, json_parses,
    json_pretty_text, json_texts, json_values, texts_view, JsonEntry,
};

verus! {

/// The architectures an Actually Portable Executable holds.
#[derive(Clone, Copy, Debug, PartialEq, Eq, Structural)]
pub enum Arch {
    X86_64,
    Aarch64,
}

/// Both architectures, in the order they are built and linked.
pub open spec fn arches() -> Seq<Arch> {
    seq![Arch::X86_64, Arch::Aarch64]
}

/// The Rust name of an architecture.
pub open spec fn arch_name(a: Arch) -> Seq<u8> {
    match a {
        Arch::X86_64 => "x86_64".spec_bytes(),
        Arch::Aarch64 => "aarch64".spec_bytes(),
    }
}

impl Arch {
    /// The Rust name of this architecture.
    pub fn name(&self) -> (r: &'static str)
        ensures
            r.spec_bytes() == arch_name(*self),
    {
        match self {
            Arch::X86_64 => "x86_64",
            Arch::Aarch64 => "aarch64",
        }
    }
}

/// Both architectures, in the order they are built and linked.
pub fn all_arches() -> (r: Vec<Arch>)
    ensures
        r@ == arches(),
{
    let mut r: Vec<Arch> = Vec::new();
    r.push(Arch::X86_64);
    r.push(Arch::Aarch64);
    assert(r@ =~= arches());
    r
}

/// The file holding the custom target specification for `a`.
pub open spec fn spec_file_name(a: Arch) -> Seq<u8> {
    arch_name(a) + "-unknown-cosmopolitan.json".spec_bytes()
}

/// The name of the custom target for `a` (the specification file's stem).
pub open spec fn target_triple(a: Arch) -> Seq<u8> {
    arch_name(a) + "-unknown-cosmopolitan".spec_bytes()
}

/// The byte `-`.
pub const DASH: u8 = 45;

/// The byte `_`.
pub const UNDERSCORE: u8 = 95;

/// `s` with every `-` replaced by `_`, as in the names of the target's
/// environment variables (`CC_<target>` and so on).
pub open spec fn dashes_to_underscores(s: Seq<u8>) -> Seq<u8> {
    s.map_values(|b: u8| if b == DASH { UNDERSCORE } else { b })
}

/// The target specification file name for `a`.
pub fn spec_file(a: Arch) -> (r: Vec<u8>)
    ensures
        r@ == spec_file_name(a),
{
    concat(a.name().as_bytes(), "-unknown-cosmopolitan.json".as_bytes())
}

/// The target name for `a`, as it appears in environment variable names.
pub fn target_env_name(a: Arch) -> (r: Vec<u8>)
    ensures
        r@ == dashes_to_underscores(target_triple(a)),
{
    let triple = concat(a.name().as_bytes(), "-unknown-cosmopolitan".as_bytes());
    let mut r: Vec<u8> = Vec::new();
    let mut i: usize = 0;
    while i < triple.len()
        invariant
            i <= triple@.len(),
            triple@ == target_triple(a),
            r@ == dashes_to_underscores(triple@.subrange(0, i as int)),
        decreases triple@.len() - i,
    {
        let b = triple[i];
        r.push(if b == DASH { UNDERSCORE } else { b });
        i += 1;
        assert(r@ =~= dashes_to_underscores(triple@.subrange(0, i as int)));
    }
    assert(triple@.subrange(0, triple@.len() as int) =~= triple@);
    r
}

/// Keys of the host specification that are removed: the target keeps LLVM's
/// architecture layout but gets its own identity and loses all platform
/// linking defaults.
pub open spec fn dropped_target_keys() -> Set<Seq<char>> {
    set![
        "is-builtin"@, "metadata"@, "pre-link-args"@, "late-link-args"@,
        "late-link-args-static"@, "late-link-args-dynamic"@, "post-link-args"@,
        "pre-link-objects"@, "post-link-objects"@, "pre-link-objects-fallback"@,
        "post-link-objects-fallback"@, "link-self-contained"@, "supported-sanitizers"@,
        "supports-xray"@
    ]
}

/// Keys that every Cosmopolitan target sets.
pub open spec fn cosmopolitan_target_keys() -> Set<Seq<char>> {
    set![
        "os"@, "env"@, "vendor"@, "target-family"@, "executables"@, "linker"@,
        "linker-flavor"@, "dynamic-linking"@, "has-rpath"@, "position-independent-executables"@,
        "static-position-independent-executables"@, "relocation-model"@, "relro-level"@,
        "crt-static-default"@, "crt-static-respected"@, "has-thread-local"@, "disable-redzone"@,
        "panic-strategy"@, "frame-pointer"@, "default-uwtable"@
    ]
}

/// The keys of a customized specification, given the host's keys.
pub open spec fn customized_keys(keys: Set<Seq<char>>, arch: Arch, tiny: bool) -> Set<Seq<char>> {
    let base = keys.difference(dropped_target_keys()).union(cosmopolitan_target_keys());
    let with_features = if arch == Arch::Aarch64 {
        base.insert("features"@)
    } else {
        base
    };
    if tiny {
        with_features.insert("pre-link-args"@)
    } else {
        with_features
    }
}

/// The string settings of every Cosmopolitan target: its identity, static
/// non-relocatable linkage through `linker`, aborting panics, and frame
/// pointers.
pub open spec fn cosmopolitan_texts(linker: Seq<char>) -> Map<Seq<char>, Seq<char>> {
    map![
        "os"@ => "cosmopolitan"@, "env"@ => "cosmo"@, "vendor"@ => "unknown"@, "linker"@ => linker,
        "linker-flavor"@ => "gnu-cc"@, "relocation-model"@ => "static"@, "relro-level"@ => "off"@,
        "panic-strategy"@ => "abort"@, "frame-pointer"@ => "always"@
    ]
}

/// The boolean settings of every Cosmopolitan target: executables, no
/// dynamic linking, rpath or PIE, static CRT, no native TLS, no red zone and
/// no unwind tables.
pub open spec fn cosmopolitan_flags() -> Map<Seq<char>, bool> {
    map![
        "executables"@ => true, "dynamic-linking"@ => false, "has-rpath"@ => false,
        "position-independent-executables"@ => false, "static-position-independent-executables"@ => false,
        "crt-static-default"@ => true, "crt-static-respected"@ => true, "has-thread-local"@ => false,
        "disable-redzone"@ => true, "default-uwtable"@ => false
    ]
}

/// The string settings specific to an architecture: ARM64 reserves x18
/// and x28 for Cosmopolitan's runtime.
pub open spec fn arch_texts(arch: Arch) -> Map<Seq<char>, Seq<char>> {
    if arch == Arch::Aarch64 {
        map!["features"@ => "+v8a,+outline-atomics,+reserve-x18,+reserve-x28"@]
    } else {
        Map::empty()
    }
}

/// The string entries of a customized specification, given the host's.
pub open spec fn customized_texts(texts: Map<Seq<char>, Seq<char>>, arch: Arch, linker: Seq<char>) -> Map<Seq<char>, Seq<char>> {
    texts.remove_keys(dropped_target_keys().union(cosmopolitan_target_keys())).union_prefer_right(
        cosmopolitan_texts(linker),
    ).union_prefer_right(arch_texts(arch))
}

/// The boolean entries of a customized specification, given the host's.
pub open spec fn customized_flags(flags: Map<Seq<char>, bool>, arch: Arch) -> Map<Seq<char>, bool> {
    flags.remove_keys(dropped_target_keys().union(cosmopolitan_target_keys()).union(arch_texts(arch).dom())).union_prefer_right(
        cosmopolitan_flags(),
    )
}

/// The words a target specification is edited under, as far as their
/// lengths and distinguishing characters tell them apart.
proof fn lemma_target_words()
    ensures
        "is-builtin"@.len() == 10,
        "metadata"@.len() == 8,
        "metadata"@[0] == 'm',
        "pre-link-args"@.len() == 13,
        "pre-link-args"@[0] == 'p',
        "late-link-args"@.len() == 14,
        "late-link-args"@[0] == 'l',
        "late-link-args-static"@.len() == 21,
        "late-link-args-dynamic"@.len() == 22,
        "post-link-args"@.len() == 14,
        "post-link-args"@[0] == 'p',
        "post-link-args"@[1] == 'o',
        "pre-link-objects"@.len() == 16,
        "pre-link-objects"@[0] == 'p',
        "post-link-objects"@.len() == 17,
        "pre-link-objects-fallback"@.len() == 25,
        "post-link-objects-fallback"@.len() == 26,
        "link-self-contained"@.len() == 19,
        "supported-sanitizers"@.len() == 20,
        "supported-sanitizers"@[0] == 's',
        "supports-xray"@.len() == 13,
        "supports-xray"@[0] == 's',
        "os"@.len() == 2,
        "env"@.len() == 3,
        "vendor"@.len() == 6,
        "vendor"@[0] == 'v',
        "target-family"@.len() == 13,
        "target-family"@[0] == 't',
        "executables"@.len() == 11,
        "executables"@[0] == 'e',
        "linker"@.len() == 6,
        "linker"@[0] == 'l',
        "linker-flavor"@.len() == 13,
        "linker-flavor"@[0] == 'l',
        "dynamic-linking"@.len() == 15,
        "dynamic-linking"@[1] == 'y',
        "has-rpath"@.len() == 9,
        "position-independent-executables"@.len() == 32,
        "static-position-independent-executables"@.len() == 39,
        "relocation-model"@.len() == 16,
        "relocation-model"@[0] == 'r',
        "relro-level"@.len() == 11,
        "relro-level"@[0] == 'r',
        "crt-static-default"@.len() == 18,
        "crt-static-respected"@.len() == 20,
        "crt-static-respected"@[0] == 'c',
        "has-thread-local"@.len() == 16,
        "has-thread-local"@[0] == 'h',
        "disable-redzone"@.len() == 15,
        "disable-redzone"@[1] == 'i',
        "panic-strategy"@.len() == 14,
        "panic-strategy"@[0] == 'p',
        "panic-strategy"@[1] == 'a',
        "frame-pointer"@.len() == 13,
        "frame-pointer"@[0] == 'f',
        "default-uwtable"@.len() == 15,
        "default-uwtable"@[1] == 'e',
        "features"@.len() == 8,
        "features"@[0] == 'f',
{
        reveal_strlit("is-builtin");
        reveal_strlit("metadata");
        reveal_strlit("pre-link-args");
        reveal_strlit("late-link-args");
        reveal_strlit("late-link-args-static");
        reveal_strlit("late-link-args-dynamic");
        reveal_strlit("post-link-args");
        reveal_strlit("pre-link-objects");
        reveal_strlit("post-link-objects");
        reveal_strlit("pre-link-objects-fallback");
        reveal_strlit("post-link-objects-fallback");
        reveal_strlit("link-self-contained");
        reveal_strlit("supported-sanitizers");
        reveal_strlit("supports-xray");
        reveal_strlit("os");
        reveal_strlit("env");
        reveal_strlit("vendor");
        reveal_strlit("target-family");
        reveal_strlit("executables");
        reveal_strlit("linker");
        reveal_strlit("linker-flavor");
        reveal_strlit("dynamic-linking");
        reveal_strlit("has-rpath");
        reveal_strlit("position-independent-executables");
        reveal_strlit("static-position-independent-executables");
        reveal_strlit("relocation-model");
        reveal_strlit("relro-level");
        reveal_strlit("crt-static-default");
        reveal_strlit("crt-static-respected");
        reveal_strlit("has-thread-local");
        reveal_strlit("disable-redzone");
        reveal_strlit("panic-strategy");
        reveal_strlit("frame-pointer");
        reveal_strlit("default-uwtable");
        reveal_strlit("features");
}

/// The string-list entries of a customized specification, given the host's:
/// the target family is Unix.
pub open spec fn customized_lists(lists: Map<Seq<char>, Seq<Seq<char>>>, arch: Arch) -> Map<Seq<char>, Seq<Seq<char>>> {
    lists.remove_keys(dropped_target_keys().union(cosmopolitan_target_keys()).union(arch_texts(arch).dom())).insert(
        "target-family"@,
        seq!["unix"@],
    )
}

/// Every entry but the one at `key` is as it was, whatever its kind.
pub open spec fn others_kept(new: Map<Seq<char>, Value>, old: Map<Seq<char>, Value>, key: Seq<char>) -> bool {
    &&& forall|j: Seq<char>| j != key ==> (#[trigger] new.dom().contains(j)) == old.dom().contains(j)
    &&& forall|j: Seq<char>| j != key && old.dom().contains(j) ==> #[trigger] new[j] == old[j]
}

proof fn lemma_others_kept(new: Map<Seq<char>, Value>, old: Map<Seq<char>, Value>, key: Seq<char>)
    requires
        new.remove(key) == old.remove(key),
    ensures
        others_kept(new, old, key),
{
    assert forall|j: Seq<char>| j != key implies (#[trigger] new.dom().contains(j)) == old.dom().contains(j) by {
        assert(new.remove(key).dom().contains(j) == new.dom().contains(j));
        assert(old.remove(key).dom().contains(j) == old.dom().contains(j));
    }
    assert forall|j: Seq<char>| j != key && old.dom().contains(j) implies #[trigger] new[j] == old[j] by {
        assert(new.remove(key)[j] == new[j]);
        assert(old.remove(key)[j] == old[j]);
    }
}

fn set_entry(obj: &mut serde_json::Map<String, Value>, key: String, entry: JsonEntry)
    ensures
        json_keys(*final(obj)) == json_keys(*old(obj)).insert(key@),
        json_texts(*final(obj)) == match entry {
            JsonEntry::Text(s) => json_texts(*old(obj)).insert(key@, s@),
            _ => json_texts(*old(obj)).remove(key@),
        },
        json_flags(*final(obj)) == match entry {
            JsonEntry::Flag(b) => json_flags(*old(obj)).insert(key@, b),
            _ => json_flags(*old(obj)).remove(key@),
        },
        json_lists(*final(obj)) == match entry {
            JsonEntry::Texts(items) => json_lists(*old(obj)).insert(key@, texts_view(items@)),
            _ => json_lists(*old(obj)).remove(key@),
        },
        json_objects(*final(obj)) == match entry {
            JsonEntry::Object(o) => json_objects(*old(obj)).insert(key@, o),
            _ => json_objects(*old(obj)).remove(key@),
        },
        json_values(*final(obj)).dom().contains(key@),
        others_kept(json_values(*final(obj)), json_values(*old(obj)), key@),
{
    let ghost k = key@;
    json_map_insert(obj, key, entry);
    proof {
        lemma_others_kept(json_values(*obj), json_values(*old(obj)), k);
    }
}

fn set_text(obj: &mut serde_json::Map<String, Value>, key: &str, value: &str)
    ensures
        json_keys(*final(obj)) == json_keys(*old(obj)).insert(key@),
        json_texts(*final(obj)) == json_texts(*old(obj)).insert(key@, value@),
        json_flags(*final(obj)) == json_flags(*old(obj)).remove(key@),
        json_lists(*final(obj)) == json_lists(*old(obj)).remove(key@),
        json_objects(*final(obj)) == json_objects(*old(obj)).remove(key@),
        others_kept(json_values(*final(obj)), json_values(*old(obj)), key@),
{
    set_entry(obj, key.to_owned(), JsonEntry::Text(value.to_owned()));
}

fn set_flag(obj: &mut serde_json::Map<String, Value>, key: &str, value: bool)
    ensures
        json_keys(*final(obj)) == json_keys(*old(obj)).insert(key@),
        json_texts(*final(obj)) == json_texts(*old(obj)).remove(key@),
        json_flags(*final(obj)) == json_flags(*old(obj)).insert(key@, value),
        json_lists(*final(obj)) == json_lists(*old(obj)).remove(key@),
        json_objects(*final(obj)) == json_objects(*old(obj)).remove(key@),
        others_kept(json_values(*final(obj)), json_values(*old(obj)), key@),
{
    set_entry(obj, key.to_owned(), JsonEntry::Flag(value));
}

fn drop_key(obj: &mut serde_json::Map<String, Value>, key: &str)
    ensures
        json_keys(*final(obj)) == json_keys(*old(obj)).remove(key@),
        json_texts(*final(obj)) == json_texts(*old(obj)).remove(key@),
        json_flags(*final(obj)) == json_flags(*old(obj)).remove(key@),
        json_lists(*final(obj)) == json_lists(*old(obj)).remove(key@),
        json_objects(*final(obj)) == json_objects(*old(obj)).remove(key@),
        json_values(*final(obj)) == json_values(*old(obj)).remove(key@),
{
    json_map_remove(obj, key);
}

/// The keys whose entries the customization removes or sets.
pub open spec fn edited_keys(arch: Arch) -> Set<Seq<char>> {
    dropped_target_keys().union(cosmopolitan_target_keys()).union(arch_texts(arch).dom())
}

/// Whether `o` is the JSON object `{"gnu-cc": ["-mtiny"]}`.
pub open spec fn is_tiny_link_args(o: serde_json::Map<String, Value>) -> bool {
    &&& json_keys(o) == set!["gnu-cc"@]
    &&& json_lists(o) == map!["gnu-cc"@ => seq!["-mtiny"@]]
}

/// Whether `new` is the Cosmopolitan specification that
/// [`customize_target_spec`] makes of the host's `old`.
pub open spec fn is_customized(
    new: serde_json::Map<String, Value>,
    old: serde_json::Map<String, Value>,
    arch: Arch,
    linker: Seq<char>,
    tiny: bool,
) -> bool {
    &&& json_keys(new) == customized_keys(json_keys(old), arch, tiny)
    &&& json_texts(new) == customized_texts(json_texts(old), arch, linker)
    &&& json_flags(new) == customized_flags(json_flags(old), arch)
    &&& json_lists(new) == customized_lists(json_lists(old), arch)
    &&& json_objects(new).remove("pre-link-args"@) == json_objects(old).remove_keys(edited_keys(arch))
    &&& json_objects(new).dom().contains("pre-link-args"@) == tiny
    &&& tiny ==> is_tiny_link_args(json_objects(new)["pre-link-args"@])
    &&& json_values(new).remove_keys(edited_keys(arch)) == json_values(old).remove_keys(edited_keys(arch))
}

/// Turns the host's target specification object into the Cosmopolitan one
/// for `arch`, linking through `linker` (this tool): the host's linking
/// defaults are removed and the Cosmopolitan settings set; `tiny` adds the
/// link argument `-mtiny` (`"pre-link-args": {"gnu-cc": ["-mtiny"]}`) so that
/// changing it forces a relink. Every other host entry, LLVM's architecture
/// layout among them, keeps its value.
pub fn customize_target_spec(obj: &mut serde_json::Map<String, Value>, arch: Arch, linker: String, tiny: bool)
    ensures
        json_keys(*final(obj)) == customized_keys(json_keys(*old(obj)), arch, tiny),
        json_texts(*final(obj)) == customized_texts(json_texts(*old(obj)), arch, linker@),
        json_flags(*final(obj)) == customized_flags(json_flags(*old(obj)), arch),
        json_lists(*final(obj)) == customized_lists(json_lists(*old(obj)), arch),
        json_objects(*final(obj)).remove("pre-link-args"@) == json_objects(*old(obj)).remove_keys(edited_keys(arch)),
        json_objects(*final(obj)).dom().contains("pre-link-args"@) == tiny,
        tiny ==> is_tiny_link_args(json_objects(*final(obj))["pre-link-args"@]),
        json_values(*final(obj)).remove_keys(edited_keys(arch)) == json_values(*old(obj)).remove_keys(edited_keys(arch)),
{
    proof {
        lemma_target_words();
    }
    drop_key(obj, "is-builtin");
    drop_key(obj, "metadata");
    drop_key(obj, "pre-link-args");
    drop_key(obj, "late-link-args");
    drop_key(obj, "late-link-args-static");
    drop_key(obj, "late-link-args-dynamic");
    drop_key(obj, "post-link-args");
    drop_key(obj, "pre-link-objects");
    drop_key(obj, "post-link-objects");
    drop_key(obj, "pre-link-objects-fallback");
    drop_key(obj, "post-link-objects-fallback");
    drop_key(obj, "link-self-contained");
    drop_key(obj, "supported-sanitizers");
    drop_key(obj, "supports-xray");
    assert(json_keys(*obj) =~= json_keys(*old(obj)).difference(dropped_target_keys()));
    assert(json_texts(*obj) =~= json_texts(*old(obj)).remove_keys(dropped_target_keys()));
    assert(json_flags(*obj) =~= json_flags(*old(obj)).remove_keys(dropped_target_keys()));
    assert(json_lists(*obj) =~= json_lists(*old(obj)).remove_keys(dropped_target_keys()));
    assert(json_objects(*obj) =~= json_objects(*old(obj)).remove_keys(dropped_target_keys()));
    assert(json_values(*obj) =~= json_values(*old(obj)).remove_keys(dropped_target_keys()));
    let ghost trimmed_lists = json_lists(*obj);
    let ghost trimmed_keys = json_keys(*obj);
    let ghost trimmed_texts = json_texts(*obj);
    let ghost trimmed_flags = json_flags(*obj);
    let ghost trimmed_objects = json_objects(*obj);
    let ghost trimmed_values = json_values(*obj);

    set_text(obj, "os", "cosmopolitan");
    set_text(obj, "env", "cosmo");
    set_text(obj, "vendor", "unknown");
    let mut family: Vec<String> = Vec::new();
    family.push("unix".to_owned());
    assert(texts_view(family@) =~= seq!["unix"@]);
    set_entry(obj, "target-family".to_owned(), JsonEntry::Texts(family));
    set_flag(obj, "executables", true);
    set_entry(obj, "linker".to_owned(), JsonEntry::Text(linker));
    set_text(obj, "linker-flavor", "gnu-cc");
    set_flag(obj, "dynamic-linking", false);
    set_flag(obj, "has-rpath", false);
    set_flag(obj, "position-independent-executables", false);
    set_flag(obj, "static-position-independent-executables", false);
    set_text(obj, "relocation-model", "static");
    set_text(obj, "relro-level", "off");
    set_flag(obj, "crt-static-default", true);
    set_flag(obj, "crt-static-respected", true);
    set_flag(obj, "has-thread-local", false);
    set_flag(obj, "disable-redzone", true);
    set_text(obj, "panic-strategy", "abort");
    set_text(obj, "frame-pointer", "always");
    set_flag(obj, "default-uwtable", false);
    assert(json_keys(*obj) =~= trimmed_keys.union(cosmopolitan_target_keys()));
    assert(json_texts(*obj) =~= trimmed_texts.remove_keys(cosmopolitan_target_keys()).union_prefer_right(
        cosmopolitan_texts(linker@),
    ));
    assert(json_flags(*obj) =~= trimmed_flags.remove_keys(cosmopolitan_target_keys()).union_prefer_right(
        cosmopolitan_flags(),
    ));
    assert(json_lists(*obj) =~= trimmed_lists.remove_keys(cosmopolitan_target_keys()).insert(
        "target-family"@,
        seq!["unix"@],
    ));
    assert(json_objects(*obj) =~= trimmed_objects.remove_keys(cosmopolitan_target_keys()));
    assert(json_values(*obj).remove_keys(cosmopolitan_target_keys()) =~= trimmed_values.remove_keys(
        cosmopolitan_target_keys(),
    ));
    let ghost base_texts = json_texts(*obj);
    let ghost base_flags = json_flags(*obj);
    let ghost base_lists = json_lists(*obj);
    let ghost base_objects = json_objects(*obj);
    let ghost base_values = json_values(*obj);

    if arch == Arch::Aarch64 {
        set_text(obj, "features", "+v8a,+outline-atomics,+reserve-x18,+reserve-x28");
        assert(json_texts(*obj) =~= base_texts.union_prefer_right(arch_texts(arch)));
        assert(json_flags(*obj) =~= base_flags.remove("features"@));
        assert(json_lists(*obj) =~= base_lists.remove("features"@));
        assert(json_objects(*obj) =~= base_objects.remove_keys(arch_texts(arch).dom()));
        assert(json_values(*obj).remove_keys(arch_texts(arch).dom()) =~= base_values.remove_keys(
            arch_texts(arch).dom(),
        ));
    } else {
        assert(json_texts(*obj) =~= base_texts.union_prefer_right(arch_texts(arch)));
        assert(json_flags(*obj) =~= base_flags.remove_keys(arch_texts(arch).dom()));
        assert(json_lists(*obj) =~= base_lists.remove_keys(arch_texts(arch).dom()));
        assert(json_objects(*obj) =~= base_objects.remove_keys(arch_texts(arch).dom()));
        assert(json_values(*obj).remove_keys(arch_texts(arch).dom()) =~= base_values.remove_keys(
            arch_texts(arch).dom(),
        ));
    }
    let ghost arch_texts_now = json_texts(*obj);
    let ghost arch_flags_now = json_flags(*obj);
    let ghost arch_lists_now = json_lists(*obj);
    let ghost arch_objects_now = json_objects(*obj);
    let ghost arch_values_now = json_values(*obj);
    assert(arch_objects_now =~= json_objects(*old(obj)).remove_keys(edited_keys(arch)));
    assert(arch_values_now.remove_keys(edited_keys(arch)) =~= json_values(*old(obj)).remove_keys(
        edited_keys(arch),
    ));
    if tiny {
        let mut flags: Vec<String> = Vec::new();
        flags.push("-mtiny".to_owned());
        let mut link_args = json_map_new();
        assert(texts_view(flags@) =~= seq!["-mtiny"@]);
        json_map_insert(&mut link_args, "gnu-cc".to_owned(), JsonEntry::Texts(flags));
        assert(json_keys(link_args) =~= set!["gnu-cc"@]);
        assert(json_lists(link_args) =~= map!["gnu-cc"@ => seq!["-mtiny"@]]);
        let ghost tiny_args = link_args;
        set_entry(obj, "pre-link-args".to_owned(), JsonEntry::Object(link_args));
        assert(json_texts(*obj) =~= arch_texts_now);
        assert(json_flags(*obj) =~= arch_flags_now);
        assert(json_lists(*obj) =~= arch_lists_now);
        assert(json_objects(*obj) == arch_objects_now.insert("pre-link-args"@, tiny_args));
        assert(json_objects(*obj).remove("pre-link-args"@) =~= arch_objects_now);
        assert(json_values(*obj).remove_keys(edited_keys(arch)) =~= arch_values_now.remove_keys(
            edited_keys(arch),
        ));
    }
    assert(json_texts(*obj) =~= customized_texts(json_texts(*old(obj)), arch, linker@));
    assert(json_flags(*obj) =~= customized_flags(json_flags(*old(obj)), arch));
    assert(json_lists(*obj) =~= customized_lists(json_lists(*old(obj)), arch));
}

/// Tiny-runtime law: the `--tiny` choice is part of the target
/// specification (as `pre-link-args`), so Cargo's fingerprint changes with it
/// and switching it always causes a relink.
pub proof fn law_tiny_is_part_of_the_target(keys: Set<Seq<char>>, arch: Arch)
    ensures
        customized_keys(keys, arch, true).contains("pre-link-args"@),
        !customized_keys(keys, arch, false).contains("pre-link-args"@),
{
    lemma_target_words();
    assert("features"@ != "pre-link-args"@);
    assert(dropped_target_keys().contains("pre-link-args"@));
    assert(!cosmopolitan_target_keys().contains("pre-link-args"@));
}

/// Target-settings law: a customized specification is a static, non-PIE,
/// aborting Cosmopolitan target that builds executables, linked through
/// this tool by the GNU compiler driver without rpath or unwind tables, with no red zone,
/// frame pointers, no native TLS, x18 and x28 reserved on ARM64, and the
/// `-mtiny` link argument exactly when the tiny runtime is chosen; every host
/// entry it does not edit keeps its value.
pub proof fn law_cosmopolitan_settings(
    new: serde_json::Map<String, Value>,
    host: serde_json::Map<String, Value>,
    arch: Arch,
    linker: Seq<char>,
    tiny: bool,
    key: Seq<char>,
)
    requires
        is_customized(new, host, arch, linker, tiny),
    ensures
        json_texts(new)["os"@] == "cosmopolitan"@,
        json_texts(new)["env"@] == "cosmo"@,
        json_texts(new)["vendor"@] == "unknown"@,
        json_texts(new)["linker-flavor"@] == "gnu-cc"@,
        json_texts(new)["relro-level"@] == "off"@,
        json_flags(new)["executables"@] == true,
        json_flags(new)["has-rpath"@] == false,
        json_flags(new)["static-position-independent-executables"@] == false,
        json_flags(new)["crt-static-respected"@] == true,
        json_flags(new)["default-uwtable"@] == false,
        json_texts(new)["linker"@] == linker,
        json_texts(new)["panic-strategy"@] == "abort"@,
        json_texts(new)["frame-pointer"@] == "always"@,
        json_texts(new)["relocation-model"@] == "static"@,
        json_lists(new)["target-family"@] == seq!["unix"@],
        json_flags(new)["dynamic-linking"@] == false,
        json_flags(new)["crt-static-default"@] == true,
        json_flags(new)["has-thread-local"@] == false,
        json_flags(new)["disable-redzone"@] == true,
        json_flags(new)["position-independent-executables"@] == false,
        arch == Arch::Aarch64 ==> json_texts(new)["features"@] == "+v8a,+outline-atomics,+reserve-x18,+reserve-x28"@,
        json_keys(new).contains("pre-link-args"@) == tiny,
        !json_keys(new).contains("is-builtin"@),
        !json_keys(new).contains("metadata"@),
        !json_keys(new).contains("late-link-args"@),
        !json_keys(new).contains("late-link-args-static"@),
        !json_keys(new).contains("late-link-args-dynamic"@),
        !json_keys(new).contains("post-link-args"@),
        !json_keys(new).contains("pre-link-objects"@),
        !json_keys(new).contains("post-link-objects"@),
        !json_keys(new).contains("pre-link-objects-fallback"@),
        !json_keys(new).contains("post-link-objects-fallback"@),
        !json_keys(new).contains("link-self-contained"@),
        !json_keys(new).contains("supported-sanitizers"@),
        !json_keys(new).contains("supports-xray"@),
        tiny ==> is_tiny_link_args(json_objects(new)["pre-link-args"@]),
        !edited_keys(arch).contains(key) ==> (json_values(new).dom().contains(key) == json_values(host).dom().contains(key)),
        !edited_keys(arch).contains(key) && json_values(host).dom().contains(key) ==> json_values(new)[key] == json_values(host)[key],
{
    lemma_target_words();
    law_tiny_is_part_of_the_target(json_keys(host), arch);
    if !edited_keys(arch).contains(key) {
        assert(json_values(new).remove_keys(edited_keys(arch)).dom().contains(key) == json_values(new).dom().contains(key));
        assert(json_values(host).remove_keys(edited_keys(arch)).dom().contains(key) == json_values(host).dom().contains(key));
        if json_values(host).dom().contains(key) {
            assert(json_values(new).remove_keys(edited_keys(arch))[key] == json_values(new)[key]);
            assert(json_values(host).remove_keys(edited_keys(arch))[key] == json_values(host)[key]);
        }
    }
}

/// Why a target specification could not be produced.
pub enum TargetSpecError {
    /// rustc's output is not JSON; the parser's message.
    InvalidJson(String),
    /// rustc's output is JSON but not an object.
    NotAnObject,
    /// The specification could not be serialized; the serializer's message.
    /// `serde_json` never fails on an object of JSON values, so this does
    /// not occur.
    Serialize(String),
}

impl TargetSpecError {
    /// The message for this failure.
    pub fn message(&self) -> (r: Vec<u8>)
        ensures
            self is NotAnObject ==> r@ == "invalid Rust target specification".spec_bytes(),
            self matches TargetSpecError::InvalidJson(t) ==> r@ == encode_utf8(t@),
            self matches TargetSpecError::Serialize(t) ==> r@ == encode_utf8(t@),
    {
        match self {
            TargetSpecError::InvalidJson(t) => to_vec(t.as_str().as_bytes()),
            TargetSpecError::NotAnObject => to_vec("invalid Rust target specification".as_bytes()),
            TargetSpecError::Serialize(t) => to_vec(t.as_str().as_bytes()),
        }
    }
}

/// The pretty-printed Cosmopolitan target specification for `arch`, from
/// rustc's `--print target-spec-json` output for the matching Linux GNU
/// target: `InvalidJson` exactly when that output is not JSON, `NotAnObject`
/// exactly when it is JSON but not an object; otherwise the pretty-printed
/// text of the object as [`customize_target_spec`] leaves it.
pub fn target_spec_json(host_spec: &[u8], arch: Arch, linker: String, tiny: bool) -> (r: Result<Vec<u8>, TargetSpecError>)
    ensures
        (r matches Err(TargetSpecError::InvalidJson(_))) == !json_parses(host_spec@),
        (r matches Err(TargetSpecError::NotAnObject)) == (json_parses(host_spec@) && !json_is_object(host_spec@)),
        (r is Ok) == (json_parses(host_spec@) && json_is_object(host_spec@)),
        r matches Ok(b) ==> exists|m: serde_json::Map<String, Value>|
            b@ == #[trigger] json_pretty_text(m) && is_customized(m, json_object_of(host_spec@), arch, linker@, tiny),
{
    let mut obj = match json_object_from_slice(host_spec) {
        Ok(Some(m)) => m,
        Ok(None) => return Err(TargetSpecError::NotAnObject),
        Err(e) => return Err(TargetSpecError::InvalidJson(json_error_text(&e))),
    };
    let ghost host = obj;
    let ghost linker_text = linker@;
    customize_target_spec(&mut obj, arch, linker, tiny);
    let ghost custom = obj;
    assert(is_customized(custom, host, arch, linker_text, tiny));
    match json_object_pretty(obj) {
        Ok(bytes) => {
            assert(bytes@ == json_pretty_text(custom));
            Ok(bytes)
        },
        Err(e) => Err(TargetSpecError::Serialize(json_error_text(&e))),
    }
}

/// The Linux GNU target whose specification the Cosmopolitan target starts from.
pub open spec fn host_target(a: Arch) -> Seq<u8> {
    arch_name(a) + "-unknown-linux-gnu".spec_bytes()
}

/// The arguments of `rustup run <toolchain> rustc -Zunstable-options --print
/// target-spec-json --target <arch>-unknown-linux-gnu`.
pub open spec fn host_spec_args(toolchain: Seq<u8>, arch: Arch) -> Seq<Seq<u8>> {
    seq![
        "run".spec_bytes(), toolchain, "rustc".spec_bytes(), "-Zunstable-options".spec_bytes(),
        "--print".spec_bytes(), "target-spec-json".spec_bytes(), "--target".spec_bytes(), host_target(arch)
    ]
}

/// `rustup run <toolchain> rustc -Zunstable-options --print target-spec-json
/// --target <arch>-unknown-linux-gnu`.
pub fn host_spec_command(tc: &Toolchain, toolchain: &[u8], arch: Arch) -> (r: ToolCommand)
    ensures
        r.program@ == tc.rustup@,
        byte_strings(r.args@) == host_spec_args(toolchain@, arch),
{
    let mut c = tc.rust(toolchain, "rustc");
    push_arg(&mut c.args, "-Zunstable-options".as_bytes());
    push_arg(&mut c.args, "--print".as_bytes());
    push_arg(&mut c.args, "target-spec-json".as_bytes());
    push_arg(&mut c.args, "--target".as_bytes());
    push_arg(&mut c.args, concat(arch.name().as_bytes(), "-unknown-linux-gnu".as_bytes()).as_slice());
    assert(byte_strings(c.args@) =~= seq![
        "run".spec_bytes(), toolchain@, "rustc".spec_bytes(), "-Zunstable-options".spec_bytes(),
        "--print".spec_bytes(), "target-spec-json".spec_bytes(), "--target".spec_bytes(), host_target(arch)
    ]);
    c
}

} // verus!
