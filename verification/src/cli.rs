//! Products, release arguments and command decoding of the builder's CLI.

use vstd::prelude::*;
use crate::text;
use crate::text::{append_str, join_strings, str_eq};

verus! {

pub const PRODUCT_BASE_ROOTFS: &'static str = "base-rootfs";
pub const PRODUCT_LIVE_BOOT: &'static str = "live-boot";
pub const PRODUCT_LIVE_TOOLS: &'static str = "live-tools";
pub const PRODUCT_INSTALLED_BOOT: &'static str = "installed-boot";
pub const DEFAULT_DISTRO_ID: &'static str = "levitate";

/// A product the builder can prepare, and how its artifacts are named.
#[derive(Debug, Clone, Copy)]
pub struct BuildProduct {
    pub canonical: &'static str,
    pub release_dir_name: &'static str,
    pub release_hook_script_name: Option<&'static str>,
    pub iso_suffix: &'static str,
    pub live_overlay_dir_name: &'static str,
    pub rootfs_source_pointer_filename: &'static str,
    pub issue_banner_label: &'static str,
}

/// The names of a product, as character sequences.
pub struct ProductView {
    pub canonical: Seq<char>,
    pub release_dir_name: Seq<char>,
    pub release_hook_script_name: Option<Seq<char>>,
    pub iso_suffix: Seq<char>,
    pub live_overlay_dir_name: Seq<char>,
    pub rootfs_source_pointer_filename: Seq<char>,
    pub issue_banner_label: Seq<char>,
}

impl BuildProduct {
    pub open spec fn view(self) -> ProductView {
        ProductView {
            canonical: self.canonical@,
            release_dir_name: self.release_dir_name@,
            release_hook_script_name: match self.release_hook_script_name {
                Some(h) => Some(h@),
                None => None,
            },
            iso_suffix: self.iso_suffix@,
            live_overlay_dir_name: self.live_overlay_dir_name@,
            rootfs_source_pointer_filename: self.rootfs_source_pointer_filename@,
            issue_banner_label: self.issue_banner_label@,
        }
    }
}

/// The product named `name`, if there is one.
pub open spec fn product_named(name: Seq<char>) -> Option<ProductView> {
    if name == "base-rootfs"@ {
        Some(ProductView {
            canonical: "base-rootfs"@,
            release_dir_name: "base-rootfs"@,
            release_hook_script_name: Some("build-release.sh"@),
            iso_suffix: "base-rootfs"@,
            live_overlay_dir_name: "live-overlay"@,
            rootfs_source_pointer_filename: ".live-rootfs-source.path"@,
            issue_banner_label: "Base Rootfs"@,
        })
    } else if name == "live-boot"@ {
        Some(ProductView {
            canonical: "live-boot"@,
            release_dir_name: "live-boot"@,
            release_hook_script_name: Some("boot-release.sh"@),
            iso_suffix: "live-boot"@,
            live_overlay_dir_name: "live-overlay"@,
            rootfs_source_pointer_filename: ".live-rootfs-source.path"@,
            issue_banner_label: "Live Boot"@,
        })
    } else if name == "live-tools"@ {
        Some(ProductView {
            canonical: "live-tools"@,
            release_dir_name: "live-tools"@,
            release_hook_script_name: Some("live-tools-release.sh"@),
            iso_suffix: "live-tools"@,
            live_overlay_dir_name: "live-overlay"@,
            rootfs_source_pointer_filename: ".live-rootfs-source.path"@,
            issue_banner_label: "Live Tools"@,
        })
    } else if name == "installed-boot"@ {
        Some(ProductView {
            canonical: "installed-boot"@,
            release_dir_name: "installed-boot"@,
            release_hook_script_name: None,
            iso_suffix: "installed-boot"@,
            live_overlay_dir_name: "boot-overlay"@,
            rootfs_source_pointer_filename: ".rootfs-source.path"@,
            issue_banner_label: "Installed Boot"@,
        })
    } else {
        None
    }
}

/// The product prepared as `product.rootfs.base` and so on.
pub open spec fn logical_product_name(logical: Seq<char>) -> Option<Seq<char>> {
    if logical == "product.rootfs.base"@ {
        Some("base-rootfs"@)
    } else if logical == "product.payload.boot.live"@ {
        Some("live-boot"@)
    } else if logical == "product.payload.live_tools"@ {
        Some("live-tools"@)
    } else if logical == "product.payload.boot.installed"@ {
        Some("installed-boot"@)
    } else {
        None
    }
}

/// Why a command line was refused.
#[derive(Debug, PartialEq, Eq)]
pub enum CliError {
    /// The product name is none of the four products.
    UnsupportedProduct { value: String },
    /// The product cannot be built as a release ISO.
    NotReleaseProduct { value: String },
    /// The logical product name is unknown.
    UnsupportedLogicalName { value: String },
    /// The distro is not among the known ones (listed, comma separated).
    UnsupportedDistro { value: String, supported: String },
    /// Neither order of two release arguments names a distro and a release product.
    InvalidReleaseArgs { arg1: String, arg2: String, known: String },
    /// More than two positional arguments were given to `release build iso`.
    TooManyReleaseArgs,
    /// The command line matches no command.
    Usage,
}

/// The four product names differ from each other.
pub proof fn lemma_product_names_distinct()
    ensures
        "base-rootfs"@ != "live-boot"@,
        "base-rootfs"@ != "live-tools"@,
        "base-rootfs"@ != "installed-boot"@,
        "live-boot"@ != "live-tools"@,
        "live-boot"@ != "installed-boot"@,
        "live-tools"@ != "installed-boot"@,
{
    reveal_strlit("base-rootfs");
    reveal_strlit("live-boot");
    reveal_strlit("live-tools");
    reveal_strlit("installed-boot");
    assert("base-rootfs"@.len() == 11);
    assert("live-boot"@.len() == 9);
    assert("live-tools"@.len() == 10);
    assert("installed-boot"@.len() == 14);
}

/// A product is named by its canonical name: the name that selects a product
/// is that product's canonical name, so parsing it again gives the same product.
pub proof fn law_product_canonical_roundtrip(name: Seq<char>)
    requires
        product_named(name) is Some,
    ensures
        product_named(name).unwrap().canonical == name,
        product_named(product_named(name).unwrap().canonical) == product_named(name),
{
}

/// The release products are exactly the products that have a release hook
/// script; `installed-boot` is the only product without one.
pub proof fn law_release_products_have_hooks(name: Seq<char>)
    ensures
        is_release_product(name) <==> (product_named(name) matches Some(pv)
            && pv.release_hook_script_name is Some),
        is_release_product(name) ==> product_named(name) is Some,
{
    lemma_product_names_distinct();
}

/// Distinct logical names select distinct products, and every product is
/// selected by some logical name.
pub proof fn law_logical_names_one_to_one(l1: Seq<char>, l2: Seq<char>, name: Seq<char>)
    ensures
        logical_product_name(l1) is Some && logical_product_name(l1) == logical_product_name(l2) ==> l1 == l2,
        logical_product_name(l1) matches Some(n) ==> product_named(n) is Some,
        product_named(name) is Some ==> exists|l: Seq<char>| logical_product_name(l) == Some(name),
{
    lemma_product_names_distinct();
    reveal_strlit("product.rootfs.base");
    reveal_strlit("product.payload.boot.live");
    reveal_strlit("product.payload.live_tools");
    reveal_strlit("product.payload.boot.installed");
    assert("product.rootfs.base"@.len() == 19);
    assert("product.payload.boot.live"@.len() == 25);
    assert("product.payload.live_tools"@.len() == 26);
    assert("product.payload.boot.installed"@.len() == 30);
    if product_named(name) is Some {
        if name == "base-rootfs"@ {
            assert(logical_product_name("product.rootfs.base"@) == Some(name));
        } else if name == "live-boot"@ {
            assert(logical_product_name("product.payload.boot.live"@) == Some(name));
        } else if name == "live-tools"@ {
            assert(logical_product_name("product.payload.live_tools"@) == Some(name));
        } else {
            assert(logical_product_name("product.payload.boot.installed"@) == Some(name));
        }
    }
}

fn product_base_rootfs() -> (p: BuildProduct)
    ensures
        product_named("base-rootfs"@) == Some(p.view()),
{
    BuildProduct {
        canonical: "base-rootfs",
        release_dir_name: "base-rootfs",
        release_hook_script_name: Some("build-release.sh"),
        iso_suffix: "base-rootfs",
        live_overlay_dir_name: "live-overlay",
        rootfs_source_pointer_filename: ".live-rootfs-source.path",
        issue_banner_label: "Base Rootfs",
    }
}

fn product_live_boot() -> (p: BuildProduct)
    ensures
        product_named("live-boot"@) == Some(p.view()),
{
    proof {
        lemma_product_names_distinct();
    }
    BuildProduct {
        canonical: "live-boot",
        release_dir_name: "live-boot",
        release_hook_script_name: Some("boot-release.sh"),
        iso_suffix: "live-boot",
        live_overlay_dir_name: "live-overlay",
        rootfs_source_pointer_filename: ".live-rootfs-source.path",
        issue_banner_label: "Live Boot",
    }
}

fn product_live_tools() -> (p: BuildProduct)
    ensures
        product_named("live-tools"@) == Some(p.view()),
{
    proof {
        lemma_product_names_distinct();
    }
    BuildProduct {
        canonical: "live-tools",
        release_dir_name: "live-tools",
        release_hook_script_name: Some("live-tools-release.sh"),
        iso_suffix: "live-tools",
        live_overlay_dir_name: "live-overlay",
        rootfs_source_pointer_filename: ".live-rootfs-source.path",
        issue_banner_label: "Live Tools",
    }
}

fn product_installed_boot() -> (p: BuildProduct)
    ensures
        product_named("installed-boot"@) == Some(p.view()),
{
    proof {
        lemma_product_names_distinct();
    }
    BuildProduct {
        canonical: "installed-boot",
        release_dir_name: "installed-boot",
        release_hook_script_name: None,
        iso_suffix: "installed-boot",
        live_overlay_dir_name: "boot-overlay",
        rootfs_source_pointer_filename: ".rootfs-source.path",
        issue_banner_label: "Installed Boot",
    }
}

/// The product a name selects (`base-rootfs` when none is given).
pub open spec fn requested_product(value: Option<&str>) -> Seq<char> {
    match value {
        Some(v) => v@,
        None => "base-rootfs"@,
    }
}

/// Parse a product name; no name means `base-rootfs`.
pub fn parse_product(value: Option<&str>) -> (r: Result<BuildProduct, CliError>)
    ensures
        match product_named(requested_product(value)) {
            Some(pv) => r matches Ok(p) && p.view() == pv,
            None => r matches Err(CliError::UnsupportedProduct { value: v }) && v@ == requested_product(value),
        },
{
    let name: &str = match value {
        Some(v) => v,
        None => "base-rootfs",
    };
    if str_eq(name, "base-rootfs") {
        Ok(product_base_rootfs())
    } else if str_eq(name, "live-boot") {
        Ok(product_live_boot())
    } else if str_eq(name, "live-tools") {
        Ok(product_live_tools())
    } else if str_eq(name, "installed-boot") {
        Ok(product_installed_boot())
    } else {
        Err(CliError::UnsupportedProduct { value: String::from_str(name) })
    }
}

/// Whether a product can be built as a release ISO.
pub open spec fn is_release_product(name: Seq<char>) -> bool {
    product_named(name) is Some && name != "installed-boot"@
}

/// Parse a release product: any product but `installed-boot`.
pub fn parse_release_product(value: Option<&str>) -> (r: Result<BuildProduct, CliError>)
    ensures
        is_release_product(requested_product(value)) ==> (r matches Ok(p) && Some(p.view()) == product_named(requested_product(value))),
        product_named(requested_product(value)) is None ==> (r matches Err(CliError::UnsupportedProduct { value: v }) && v@ == requested_product(value)),
        requested_product(value) == "installed-boot"@ ==> (r matches Err(CliError::NotReleaseProduct { value: v }) && v@ == "installed-boot"@),
{
    let p = parse_product(value)?;
    if str_eq(p.canonical, "installed-boot") {
        return Err(CliError::NotReleaseProduct { value: String::from_str(p.canonical) });
    }
    proof {
        lemma_product_names_distinct();
    }
    Ok(p)
}

/// The product a canonical logical name stands for.
pub fn product_for_logical_name(logical_name: &str) -> (r: Result<BuildProduct, CliError>)
    ensures
        match logical_product_name(logical_name@) {
            Some(n) => r matches Ok(p) && Some(p.view()) == product_named(n),
            None => r matches Err(CliError::UnsupportedLogicalName { value: v }) && v@ == logical_name@,
        },
{
    if str_eq(logical_name, "product.rootfs.base") {
        Ok(product_base_rootfs())
    } else if str_eq(logical_name, "product.payload.boot.live") {
        Ok(product_live_boot())
    } else if str_eq(logical_name, "product.payload.live_tools") {
        Ok(product_live_tools())
    } else if str_eq(logical_name, "product.payload.boot.installed") {
        Ok(product_installed_boot())
    } else {
        Err(CliError::UnsupportedLogicalName { value: String::from_str(logical_name) })
    }
}


/// The distro ids among the entries of the variants directory: the
/// directories that hold an `identity.toml`, in the order they were read.
pub open spec fn variant_ids(entries: Seq<(String, bool, bool)>) -> Seq<Seq<char>> {
    entries.filter(|e: (String, bool, bool)| e.1 && e.2).map_values(|e: (String, bool, bool)| e.0@)
}

/// Why no distro could be found.
#[derive(Debug, PartialEq, Eq)]
pub enum DiscoverError {
    /// No directory of the variants directory holds an `identity.toml`.
    NoVariants { variants_dir: String },
}

impl DiscoverError {
    /// The text of the error.
    pub fn message(&self) -> (r: String)
        ensures
            match self {
                DiscoverError::NoVariants { variants_dir } => r@ == "no distro variants discovered under '"@
                    + variants_dir@ + "'; expected directories with identity.toml"@,
            },
    {
        match self {
            DiscoverError::NoVariants { variants_dir } => {
                let mut out = String::from_str("no distro variants discovered under '");
                append_str(&mut out, variants_dir.as_str());
                append_str(&mut out, "'; expected directories with identity.toml");
                out
            },
        }
    }
}

/// The distro ids of a repository, from the entries of its variants
/// directory as (name, is a directory, holds `identity.toml`): those of the
/// directories with an `identity.toml`, sorted; none is an error.
pub fn discover_distro_ids(variants_dir: &str, entries: &Vec<(String, bool, bool)>) -> (r: Result<Vec<String>, DiscoverError>)
    ensures
        variant_ids(entries@).len() == 0 ==> (r matches Err(DiscoverError::NoVariants { variants_dir: d }) && d@ == variants_dir@),
        variant_ids(entries@).len() > 0 ==> (r matches Ok(ids)
            && text::views(ids@).to_multiset() == variant_ids(entries@).to_multiset()
            && forall|i: int, j: int| 0 <= i < j < ids@.len() ==> crate::tarball::lex_le(ids@[i]@, ids@[j]@)),
{
    let ghost pred = |e: (String, bool, bool)| e.1 && e.2;
    let ghost name = |e: (String, bool, bool)| e.0@;
    let mut pairs: Vec<(String, Vec<char>)> = Vec::new();
    let mut i: usize = 0;
    while i < entries.len()
        invariant
            i <= entries.len(),
            pred == (|e: (String, bool, bool)| e.1 && e.2),
            name == (|e: (String, bool, bool)| e.0@),
            pairs@.map_values(|p: (String, Vec<char>)| p.0@) == entries@.take(i as int).filter(pred).map_values(name),
            forall|k: int| 0 <= k < pairs@.len() ==> (#[trigger] pairs@[k]).1@ == pairs@[k].0@,
        decreases entries.len() - i,
    {
        proof {
            assert(entries@.take(i as int + 1) =~= entries@.take(i as int).push(entries@[i as int]));
            entries@.take(i as int).lemma_filter_push(entries@[i as int], pred);
        }
        let ghost before = pairs@;
        if entries[i].1 && entries[i].2 {
            let n = String::from_str(entries[i].0.as_str());
            let c = text::chars_of(entries[i].0.as_str());
            pairs.push((n, c));
            proof {
                let f = entries@.take(i as int).filter(pred);
                assert(f.push(entries@[i as int]).map_values(name) =~= f.map_values(name).push(entries@[i as int].0@));
                assert(pairs@.map_values(|p: (String, Vec<char>)| p.0@) =~= before.map_values(|p: (String, Vec<char>)| p.0@).push(entries@[i as int].0@));
            }
        }
        i = i + 1;
    }
    assert(entries@.take(entries.len() as int) =~= entries@);
    if pairs.len() == 0 {
        return Err(DiscoverError::NoVariants { variants_dir: String::from_str(variants_dir) });
    }
    let ghost pairs0 = pairs@;
    let sorted = crate::tarball::sort_by_rel(pairs);
    let mut ids: Vec<String> = Vec::new();
    let mut k: usize = 0;
    while k < sorted.len()
        invariant
            k <= sorted.len(),
            ids@.len() == k,
            forall|m: int| 0 <= m < k ==> #[trigger] ids@[m]@ == sorted@[m].0@,
        decreases sorted.len() - k,
    {
        ids.push(String::from_str(sorted[k].0.as_str()));
        k = k + 1;
    }
    proof {
        broadcast use vstd::seq_lib::group_to_multiset_ensures;
        crate::tarball::lemma_map_multiset(sorted@, pairs0, |p: (String, Vec<char>)| p.0@);
        assert(text::views(ids@) =~= sorted@.map_values(|p: (String, Vec<char>)| p.0@));
        assert forall|m: int| 0 <= m < sorted@.len() implies (#[trigger] sorted@[m]).1@ == sorted@[m].0@ by {
            vstd::seq_lib::to_multiset_contains(sorted@, sorted@[m]);
            assert(sorted@.contains(sorted@[m]));
            vstd::seq_lib::to_multiset_contains(pairs0, sorted@[m]);
            let w = choose|w: int| 0 <= w < pairs0.len() && pairs0[w] == sorted@[m];
            assert(pairs0[w].1@ == pairs0[w].0@);
        }
        assert forall|a: int, b: int| 0 <= a < b < ids@.len() implies crate::tarball::lex_le(ids@[a]@, ids@[b]@) by {
            assert(ids@[a]@ == sorted@[a].0@ && sorted@[a].1@ == sorted@[a].0@);
            assert(ids@[b]@ == sorted@[b].0@ && sorted@[b].1@ == sorted@[b].0@);
        }
    }
    Ok(ids)
}

/// Whether `value` is one of the known distro ids.
pub open spec fn is_known_distro(known: Seq<String>, value: Seq<char>) -> bool {
    text::views(known).contains(value)
}

/// The known distro ids as `a, b, c`.
pub open spec fn known_list(known: Seq<String>) -> Seq<char> {
    text::join_with(text::views(known), ", "@)
}

/// Check a distro id against the known ones.
pub fn parse_distro_id(value: &str, known: &Vec<String>) -> (r: Result<String, CliError>)
    ensures
        is_known_distro(known@, value@) ==> (r matches Ok(d) && d@ == value@),
        !is_known_distro(known@, value@) ==> (r matches Err(CliError::UnsupportedDistro { value: v, supported: s })
            && v@ == value@ && s@ == known_list(known@)),
{
    let mut i: usize = 0;
    while i < known.len()
        invariant
            i <= known.len(),
            forall|k: int| 0 <= k < i ==> known@[k]@ != value@,
        decreases known.len() - i,
    {
        if str_eq(known[i].as_str(), value) {
            proof {
                assert(text::views(known@)[i as int] == value@);
            }
            return Ok(String::from_str(value));
        }
        i = i + 1;
    }
    proof {
        if text::views(known@).contains(value@) {
            let k = choose|k: int| 0 <= k < text::views(known@).len() && text::views(known@)[k] == value@;
            assert(known@[k]@ == value@);
        }
    }
    Err(CliError::UnsupportedDistro { value: String::from_str(value), supported: join_strings(known, ", ") })
}

/// The outcome of one release argument: a known distro, else a release product.
pub open spec fn release_one_arg_ok(arg: Seq<char>, known: Seq<String>) -> bool {
    is_known_distro(known, arg) || is_release_product(arg)
}

/// What `release build iso <arg>` gives: a known distro with the default product, else the
/// release product it names with the default distro, else the product parser's error.
pub open spec fn one_arg_result(arg: Seq<char>, known: Seq<String>, r: Result<(String, BuildProduct), CliError>) -> bool {
    &&& is_known_distro(known, arg) ==> (r matches Ok((d, p)) && d@ == arg && p.view() == product_named("base-rootfs"@).unwrap())
    &&& !is_known_distro(known, arg) && is_release_product(arg) ==> (r matches Ok((d, p)) && d@ == DEFAULT_DISTRO_ID@
            && Some(p.view()) == product_named(arg))
    &&& !is_known_distro(known, arg) && product_named(arg) is None ==> (r matches Err(CliError::UnsupportedProduct { value: v }) && v@ == arg)
    &&& !is_known_distro(known, arg) && arg == "installed-boot"@ ==> (r matches Err(CliError::NotReleaseProduct { value: v }) && v@ == arg)
}

/// `release build iso <arg>`: the argument names a distro or, failing that, a release product.
pub fn parse_release_one_arg(arg: &str, known: &Vec<String>) -> (r: Result<(String, BuildProduct), CliError>)
    ensures
        one_arg_result(arg@, known@, r),
{
    if let Ok(distro_id) = parse_distro_id(arg, known) {
        return Ok((distro_id, product_base_rootfs()));
    }
    let product = parse_release_product(Some(arg))?;
    Ok((String::from_str(DEFAULT_DISTRO_ID), product))
}

/// What `release build iso <arg1> <arg2>` gives: `<distro> <product>` is tried first, then
/// `<product> <distro>`; when neither order fits, the arguments are refused.
pub open spec fn two_args_result(a1: Seq<char>, a2: Seq<char>, known: Seq<String>, r: Result<(String, BuildProduct), CliError>) -> bool {
    let first = is_known_distro(known, a1) && is_release_product(a2);
    &&& first ==> (r matches Ok((d, p)) && d@ == a1 && Some(p.view()) == product_named(a2))
    &&& !first && is_release_product(a1) && is_known_distro(known, a2) ==> (r matches Ok((d, p)) && d@ == a2
            && Some(p.view()) == product_named(a1))
    &&& !first && is_release_product(a1) && !is_known_distro(known, a2) ==> (r matches Err(CliError::UnsupportedDistro { value: v, supported: s })
            && v@ == a2 && s@ == known_list(known))
    &&& !first && !is_release_product(a1) ==> (r matches Err(CliError::InvalidReleaseArgs { arg1: x, arg2: y, known: k })
            && x@ == a1 && y@ == a2 && k@ == known_list(known))
}

/// `release build iso <arg1> <arg2>`: `<distro> <product>` is tried first, then `<product> <distro>`.
pub fn parse_release_two_args(arg1: &str, arg2: &str, known: &Vec<String>) -> (r: Result<(String, BuildProduct), CliError>)
    ensures
        two_args_result(arg1@, arg2@, known@, r),
{
    if let Ok(distro_id) = parse_distro_id(arg1, known) {
        if let Ok(product) = parse_release_product(Some(arg2)) {
            return Ok((distro_id, product));
        }
    }
    if let Ok(product) = parse_release_product(Some(arg1)) {
        let distro_id = parse_distro_id(arg2, known)?;
        return Ok((distro_id, product));
    }
    Err(CliError::InvalidReleaseArgs {
        arg1: String::from_str(arg1),
        arg2: String::from_str(arg2),
        known: join_strings(known, ", "),
    })
}

/// The positional arguments of `release build iso`: none, one or two.
pub fn parse_release_build_command(args: &Vec<String>, known: &Vec<String>) -> (r: Result<(String, BuildProduct), CliError>)
    ensures
        args@.len() == 0 ==> (r matches Ok((d, p)) && d@ == DEFAULT_DISTRO_ID@ && p.view() == product_named("base-rootfs"@).unwrap()),
        args@.len() == 1 ==> one_arg_result(args@[0]@, known@, r),
        args@.len() == 2 ==> two_args_result(args@[0]@, args@[1]@, known@, r),
        args@.len() > 2 ==> r == Err::<(String, BuildProduct), CliError>(CliError::TooManyReleaseArgs),
{
    if args.len() == 0 {
        Ok((String::from_str(DEFAULT_DISTRO_ID), product_base_rootfs()))
    } else if args.len() == 1 {
        parse_release_one_arg(args[0].as_str(), known)
    } else if args.len() == 2 {
        parse_release_two_args(args[0].as_str(), args[1].as_str(), known)
    } else {
        Err(CliError::TooManyReleaseArgs)
    }
}


/// The usage text printed when a command line matches no command.
pub fn usage() -> (r: &'static str)
    ensures
        r@ == USAGE@,
{
    USAGE
}

/// The usage text of the command line.
pub const USAGE: &'static str = "Usage:\n  distro-builder release build iso [<distro_id|product>] [<distro_id|product>]\n    product defaults to base-rootfs, distro defaults to levitate\n    release products: base-rootfs | live-boot | live-tools\n  distro-builder release build-all iso [base-rootfs|live-boot|live-tools]\n  distro-builder product prepare <base-rootfs|live-boot|live-tools|installed-boot> <distro_id> <output_dir>\n  distro-builder transform build rootfs-erofs <source_dir> <output>\n  distro-builder transform build overlayfs-erofs <source_dir> <output>\n  distro-builder transform build product-erofs <prepared_product_dir>\n  distro-builder artifact preseed-rootfs-source <distro_id> [--refresh]\n  distro-builder artifact materialize-rootfs-source <distro_id>";

impl CliError {
    /// The text of the error, as the command line reports it.
    pub open spec fn message_spec(self) -> Seq<char> {
        match self {
            CliError::UnsupportedProduct { value } =>
                "unsupported product '"@ + value@
                    + "'; expected one of: 'base-rootfs', 'live-boot', 'live-tools', 'installed-boot'"@,
            CliError::NotReleaseProduct { value } =>
                "unsupported release build product '"@ + value@
                    + "'; release build supports 'base-rootfs', 'live-boot', 'live-tools'.\n'installed-boot' is a canonical product preparation target, not a release ISO target."@,
            CliError::UnsupportedLogicalName { value } =>
                "unsupported canonical product logical name '"@ + value@
                    + "'; expected one of: product.rootfs.base, product.payload.boot.live, product.payload.live_tools, product.payload.boot.installed"@,
            CliError::UnsupportedDistro { value, supported } =>
                "unsupported distro '"@ + value@ + "'; expected one of: "@ + supported@,
            CliError::InvalidReleaseArgs { arg1, arg2, known } =>
                "invalid `release build iso` arguments: '"@ + arg1@ + "' '"@ + arg2@
                    + "'. Expected `<distro> <product>` or `<product> <distro>`.\n`product` supports: base-rootfs, live-boot, live-tools.\navailable distros: "@
                    + known@,
            CliError::TooManyReleaseArgs =>
                "unsupported positional arguments for `release build iso`; expected `[product_or_distro] [product_or_distro]`, max 2 args"@,
            CliError::Usage => USAGE@,
        }
    }

    /// The text of the error.
    pub fn message(&self) -> (r: String)
        ensures
            r@ == self.message_spec(),
    {
        let mut out = String::new();
        match self {
            CliError::UnsupportedProduct { value } => {
                append_str(&mut out, "unsupported product '");
                append_str(&mut out, value.as_str());
                append_str(&mut out, "'; expected one of: 'base-rootfs', 'live-boot', 'live-tools', 'installed-boot'");
            },
            CliError::NotReleaseProduct { value } => {
                append_str(&mut out, "unsupported release build product '");
                append_str(&mut out, value.as_str());
                append_str(&mut out, "'; release build supports 'base-rootfs', 'live-boot', 'live-tools'.\n'installed-boot' is a canonical product preparation target, not a release ISO target.");
            },
            CliError::UnsupportedLogicalName { value } => {
                append_str(&mut out, "unsupported canonical product logical name '");
                append_str(&mut out, value.as_str());
                append_str(&mut out, "'; expected one of: product.rootfs.base, product.payload.boot.live, product.payload.live_tools, product.payload.boot.installed");
            },
            CliError::UnsupportedDistro { value, supported } => {
                append_str(&mut out, "unsupported distro '");
                append_str(&mut out, value.as_str());
                append_str(&mut out, "'; expected one of: ");
                append_str(&mut out, supported.as_str());
            },
            CliError::InvalidReleaseArgs { arg1, arg2, known } => {
                append_str(&mut out, "invalid `release build iso` arguments: '");
                append_str(&mut out, arg1.as_str());
                append_str(&mut out, "' '");
                append_str(&mut out, arg2.as_str());
                append_str(&mut out, "'. Expected `<distro> <product>` or `<product> <distro>`.\n`product` supports: base-rootfs, live-boot, live-tools.\navailable distros: ");
                append_str(&mut out, known.as_str());
            },
            CliError::TooManyReleaseArgs => {
                append_str(&mut out, "unsupported positional arguments for `release build iso`; expected `[product_or_distro] [product_or_distro]`, max 2 args");
            },
            CliError::Usage => {
                append_str(&mut out, USAGE);
            },
        }
        out
    }
}

/// Whether argument `i` is the literal `lit`.
fn arg_is(args: &Vec<String>, i: usize, lit: &str) -> (r: bool)
    requires
        i < args@.len(),
    ensures
        r == (args@[i as int]@ == lit@),
{
    str_eq(args[i].as_str(), lit)
}

/// Whether the command line is `release build iso [a] [b]` or `iso build [a] [b]`.
pub open spec fn release_build_invocation(a: Seq<Seq<char>>) -> bool {
    ||| (3 <= a.len() <= 5 && a[0] == "release"@ && a[1] == "build"@ && a[2] == "iso"@)
    ||| (2 <= a.len() <= 4 && a[0] == "iso"@ && a[1] == "build"@)
}

/// Whether the command line asks for a release ISO build.
pub fn is_release_build_invocation(args: &Vec<String>) -> (r: bool)
    ensures
        r == release_build_invocation(text::views(args@)),
{
    let n = args.len();
    if 3 <= n && n <= 5 && arg_is(args, 0, "release") && arg_is(args, 1, "build") && arg_is(args, 2, "iso") {
        return true;
    }
    2 <= n && n <= 4 && arg_is(args, 0, "iso") && arg_is(args, 1, "build")
}

/// The positional arguments that follow `release build iso` or `iso build`.
pub open spec fn release_build_args_spec(a: Seq<Seq<char>>) -> Option<Seq<Seq<char>>> {
    if 3 <= a.len() <= 5 && a[0] == "release"@ && a[1] == "build"@ && a[2] == "iso"@ {
        Some(a.subrange(3, a.len() as int))
    } else if 2 <= a.len() <= 4 && a[0] == "iso"@ && a[1] == "build"@ {
        Some(a.subrange(2, a.len() as int))
    } else {
        None
    }
}

fn tail_from(args: &Vec<String>, from: usize) -> (r: Vec<String>)
    requires
        from <= args@.len(),
    ensures
        text::views(r@) == text::views(args@).subrange(from as int, args@.len() as int),
{
    let mut out: Vec<String> = Vec::new();
    let mut i = from;
    while i < args.len()
        invariant
            from <= i <= args@.len(),
            out@.len() == i - from,
            forall|k: int| 0 <= k < out@.len() ==> #[trigger] out@[k]@ == args@[from + k]@,
        decreases args.len() - i,
    {
        out.push(String::from_str(args[i].as_str()));
        i = i + 1;
    }
    assert(text::views(out@) =~= text::views(args@).subrange(from as int, args@.len() as int));
    out
}

/// The arguments of a release build command line; `Err(Usage)` when it is none.
pub fn release_build_arguments(args: &Vec<String>) -> (r: Result<Vec<String>, CliError>)
    ensures
        match release_build_args_spec(text::views(args@)) {
            Some(rest) => r matches Ok(v) && text::views(v@) == rest,
            None => r matches Err(CliError::Usage),
        },
{
    let n = args.len();
    if 3 <= n && n <= 5 && arg_is(args, 0, "release") && arg_is(args, 1, "build") && arg_is(args, 2, "iso") {
        return Ok(tail_from(args, 3));
    }
    if 2 <= n && n <= 4 && arg_is(args, 0, "iso") && arg_is(args, 1, "build") {
        return Ok(tail_from(args, 2));
    }
    Err(CliError::Usage)
}


/// A workflow the command line selects, other than a release ISO build.
#[derive(Debug)]
pub enum Command {
    /// Build the release ISO of every distro for one product.
    BuildAll { product: BuildProduct },
    /// Prepare the inputs of a product for a distro into a directory.
    PrepareProduct { product_name: String, distro_id: String, output_dir: String },
    /// Turn a rootfs directory into an EROFS image.
    BuildRootfsErofs { source_dir: String, output: String },
    /// Turn an overlay directory into an EROFS image.
    BuildOverlayfsErofs { source_dir: String, output: String },
    /// Build the EROFS images of a prepared product directory.
    BuildProductErofs { prepared_dir: String },
    /// Seed the rootfs source of a distro, fetching it again when `refresh` is set.
    PreseedRootfsSource { distro_id: String, refresh: bool },
    /// Materialize the rootfs source of a distro.
    MaterializeRootfsSource { distro_id: String },
}

/// A decoded command line, with the product of `build-all` still a name.
pub enum CommandSpec {
    BuildAll { requested: Seq<char> },
    PrepareProduct { product_name: Seq<char>, distro_id: Seq<char>, output_dir: Seq<char> },
    BuildRootfsErofs { source_dir: Seq<char>, output: Seq<char> },
    BuildOverlayfsErofs { source_dir: Seq<char>, output: Seq<char> },
    BuildProductErofs { prepared_dir: Seq<char> },
    PreseedRootfsSource { distro_id: Seq<char>, refresh: bool },
    MaterializeRootfsSource { distro_id: Seq<char> },
}

impl Command {
    pub open spec fn view(self) -> CommandSpec {
        match self {
            Command::BuildAll { product } => CommandSpec::BuildAll { requested: product.canonical@ },
            Command::PrepareProduct { product_name, distro_id, output_dir } =>
                CommandSpec::PrepareProduct { product_name: product_name@, distro_id: distro_id@, output_dir: output_dir@ },
            Command::BuildRootfsErofs { source_dir, output } =>
                CommandSpec::BuildRootfsErofs { source_dir: source_dir@, output: output@ },
            Command::BuildOverlayfsErofs { source_dir, output } =>
                CommandSpec::BuildOverlayfsErofs { source_dir: source_dir@, output: output@ },
            Command::BuildProductErofs { prepared_dir } => CommandSpec::BuildProductErofs { prepared_dir: prepared_dir@ },
            Command::PreseedRootfsSource { distro_id, refresh } =>
                CommandSpec::PreseedRootfsSource { distro_id: distro_id@, refresh },
            Command::MaterializeRootfsSource { distro_id } => CommandSpec::MaterializeRootfsSource { distro_id: distro_id@ },
        }
    }
}

/// The command a non-release command line names, tried in the order the CLI lists them.
pub open spec fn non_release_command(a: Seq<Seq<char>>) -> Option<CommandSpec> {
    if a.len() == 3 && a[0] == "release"@ && a[1] == "build-all"@ && a[2] == "iso"@ {
        Some(CommandSpec::BuildAll { requested: "base-rootfs"@ })
    } else if a.len() == 4 && a[0] == "release"@ && a[1] == "build-all"@ && a[2] == "iso"@ {
        Some(CommandSpec::BuildAll { requested: a[3] })
    } else if a.len() == 2 && a[0] == "iso"@ && a[1] == "build-all"@ {
        Some(CommandSpec::BuildAll { requested: "base-rootfs"@ })
    } else if a.len() == 3 && a[0] == "iso"@ && a[1] == "build-all"@ {
        Some(CommandSpec::BuildAll { requested: a[2] })
    } else if a.len() == 5 && a[0] == "product"@ && a[1] == "prepare"@ {
        Some(CommandSpec::PrepareProduct { product_name: a[2], distro_id: a[3], output_dir: a[4] })
    } else if a.len() == 5 && a[0] == "transform"@ && a[1] == "build"@ && a[2] == "rootfs-erofs"@ {
        Some(CommandSpec::BuildRootfsErofs { source_dir: a[3], output: a[4] })
    } else if a.len() == 5 && a[0] == "transform"@ && a[1] == "build"@ && a[2] == "overlayfs-erofs"@ {
        Some(CommandSpec::BuildOverlayfsErofs { source_dir: a[3], output: a[4] })
    } else if a.len() == 4 && a[0] == "transform"@ && a[1] == "build"@ && a[2] == "product-erofs"@ {
        Some(CommandSpec::BuildProductErofs { prepared_dir: a[3] })
    } else if a.len() == 4 && a[0] == "artifact"@ && a[1] == "build-rootfs-erofs"@ {
        Some(CommandSpec::BuildRootfsErofs { source_dir: a[2], output: a[3] })
    } else if a.len() == 4 && a[0] == "artifact"@ && a[1] == "build-overlayfs-erofs"@ {
        Some(CommandSpec::BuildOverlayfsErofs { source_dir: a[2], output: a[3] })
    } else if a.len() == 3 && a[0] == "artifact"@ && a[1] == "preseed-rootfs-source"@ {
        Some(CommandSpec::PreseedRootfsSource { distro_id: a[2], refresh: false })
    } else if a.len() == 4 && a[0] == "artifact"@ && a[1] == "preseed-rootfs-source"@ && a[3] == "--refresh"@ {
        Some(CommandSpec::PreseedRootfsSource { distro_id: a[2], refresh: true })
    } else if a.len() == 3 && a[0] == "artifact"@ && a[1] == "materialize-rootfs-source"@ {
        Some(CommandSpec::MaterializeRootfsSource { distro_id: a[2] })
    } else {
        None
    }
}

fn own(args: &Vec<String>, i: usize) -> (r: String)
    requires
        i < args@.len(),
    ensures
        r@ == args@[i as int]@,
{
    String::from_str(args[i].as_str())
}

fn build_all_for(requested: Option<&str>) -> (r: Result<Command, CliError>)
    ensures
        is_release_product(requested_product(requested)) ==> (r matches Ok(Command::BuildAll { product })
            && Some(product.view()) == product_named(requested_product(requested))),
        product_named(requested_product(requested)) is None ==> (r matches Err(CliError::UnsupportedProduct { value: v })
            && v@ == requested_product(requested)),
        requested_product(requested) == "installed-boot"@ ==> (r matches Err(CliError::NotReleaseProduct { value: v })
            && v@ == "installed-boot"@),
{
    let product = parse_release_product(requested)?;
    Ok(Command::BuildAll { product })
}

/// Decode a command line that is not a release ISO build.
pub fn dispatch_non_release_command(args: &Vec<String>) -> (r: Result<Command, CliError>)
    ensures
        match non_release_command(text::views(args@)) {
            None => r matches Err(CliError::Usage),
            Some(CommandSpec::BuildAll { requested }) => {
                &&& is_release_product(requested) ==> (r matches Ok(Command::BuildAll { product })
                    && Some(product.view()) == product_named(requested))
                &&& product_named(requested) is None ==> (r matches Err(CliError::UnsupportedProduct { value: v }) && v@ == requested)
                &&& requested == "installed-boot"@ ==> (r matches Err(CliError::NotReleaseProduct { value: v }) && v@ == requested)
            },
            Some(c) => r matches Ok(cmd) && cmd.view() == c,
        },
{
    let n = args.len();
    if n == 3 && arg_is(args, 0, "release") && arg_is(args, 1, "build-all") && arg_is(args, 2, "iso") {
        build_all_for(None)
    } else if n == 4 && arg_is(args, 0, "release") && arg_is(args, 1, "build-all") && arg_is(args, 2, "iso") {
        build_all_for(Some(args[3].as_str()))
    } else if n == 2 && arg_is(args, 0, "iso") && arg_is(args, 1, "build-all") {
        build_all_for(None)
    } else if n == 3 && arg_is(args, 0, "iso") && arg_is(args, 1, "build-all") {
        build_all_for(Some(args[2].as_str()))
    } else if n == 5 && arg_is(args, 0, "product") && arg_is(args, 1, "prepare") {
        Ok(Command::PrepareProduct { product_name: own(args, 2), distro_id: own(args, 3), output_dir: own(args, 4) })
    } else if n == 5 && arg_is(args, 0, "transform") && arg_is(args, 1, "build") && arg_is(args, 2, "rootfs-erofs") {
        Ok(Command::BuildRootfsErofs { source_dir: own(args, 3), output: own(args, 4) })
    } else if n == 5 && arg_is(args, 0, "transform") && arg_is(args, 1, "build") && arg_is(args, 2, "overlayfs-erofs") {
        Ok(Command::BuildOverlayfsErofs { source_dir: own(args, 3), output: own(args, 4) })
    } else if n == 4 && arg_is(args, 0, "transform") && arg_is(args, 1, "build") && arg_is(args, 2, "product-erofs") {
        Ok(Command::BuildProductErofs { prepared_dir: own(args, 3) })
    } else if n == 4 && arg_is(args, 0, "artifact") && arg_is(args, 1, "build-rootfs-erofs") {
        Ok(Command::BuildRootfsErofs { source_dir: own(args, 2), output: own(args, 3) })
    } else if n == 4 && arg_is(args, 0, "artifact") && arg_is(args, 1, "build-overlayfs-erofs") {
        Ok(Command::BuildOverlayfsErofs { source_dir: own(args, 2), output: own(args, 3) })
    } else if n == 3 && arg_is(args, 0, "artifact") && arg_is(args, 1, "preseed-rootfs-source") {
        Ok(Command::PreseedRootfsSource { distro_id: own(args, 2), refresh: false })
    } else if n == 4 && arg_is(args, 0, "artifact") && arg_is(args, 1, "preseed-rootfs-source") && arg_is(args, 3, "--refresh") {
        Ok(Command::PreseedRootfsSource { distro_id: own(args, 2), refresh: true })
    } else if n == 3 && arg_is(args, 0, "artifact") && arg_is(args, 1, "materialize-rootfs-source") {
        Ok(Command::MaterializeRootfsSource { distro_id: own(args, 2) })
    } else {
        Err(CliError::Usage)
    }
}

/// A command that works on the numbered build stages.
#[derive(Debug)]
pub enum CompatCommand {
    /// Build the EROFS image of a stage for a distro.
    BuildStageErofs { stage: String, distro_id: String },
    /// Prepare the inputs of a stage for a distro into a directory.
    PrepareStageInputs { stage: String, distro_id: String, output_dir: String },
}

/// A decoded stage command.
pub enum CompatCommandSpec {
    BuildStageErofs { stage: Seq<char>, distro_id: Seq<char> },
    PrepareStageInputs { stage: Seq<char>, distro_id: Seq<char>, output_dir: Seq<char> },
}

impl CompatCommand {
    pub open spec fn view(self) -> CompatCommandSpec {
        match self {
            CompatCommand::BuildStageErofs { stage, distro_id } =>
                CompatCommandSpec::BuildStageErofs { stage: stage@, distro_id: distro_id@ },
            CompatCommand::PrepareStageInputs { stage, distro_id, output_dir } =>
                CompatCommandSpec::PrepareStageInputs { stage: stage@, distro_id: distro_id@, output_dir: output_dir@ },
        }
    }
}

/// The stage command a command line names, if any.
pub open spec fn compat_command(a: Seq<Seq<char>>) -> Option<CompatCommandSpec> {
    if a.len() == 4 && a[0] == "artifact"@ && a[1] == "build-stage-erofs"@ {
        Some(CompatCommandSpec::BuildStageErofs { stage: a[2], distro_id: a[3] })
    } else if a.len() == 5 && a[0] == "artifact"@ && a[1] == "prepare-stage-inputs"@ {
        Some(CompatCommandSpec::PrepareStageInputs { stage: a[2], distro_id: a[3], output_dir: a[4] })
    } else if a.len() == 4 && a[0] == "artifact"@ && a[1] == "prepare-s01-boot-inputs"@ {
        Some(CompatCommandSpec::PrepareStageInputs { stage: "01Boot"@, distro_id: a[2], output_dir: a[3] })
    } else if a.len() == 4 && a[0] == "artifact"@ && a[1] == "prepare-s02-live-tools-inputs"@ {
        Some(CompatCommandSpec::PrepareStageInputs { stage: "02LiveTools"@, distro_id: a[2], output_dir: a[3] })
    } else if a.len() == 4 && a[0] == "artifact"@ && a[1] == "prepare-s00-build-inputs"@ {
        Some(CompatCommandSpec::PrepareStageInputs { stage: "00Build"@, distro_id: a[2], output_dir: a[3] })
    } else {
        None
    }
}

/// Decode a stage command; `None` when the command line is not one.
pub fn dispatch_compatibility_command(args: &Vec<String>) -> (r: Option<CompatCommand>)
    ensures
        match compat_command(text::views(args@)) {
            None => r is None,
            Some(c) => r matches Some(cmd) && cmd.view() == c,
        },
{
    let n = args.len();
    if n == 4 && arg_is(args, 0, "artifact") && arg_is(args, 1, "build-stage-erofs") {
        Some(CompatCommand::BuildStageErofs { stage: own(args, 2), distro_id: own(args, 3) })
    } else if n == 5 && arg_is(args, 0, "artifact") && arg_is(args, 1, "prepare-stage-inputs") {
        Some(CompatCommand::PrepareStageInputs { stage: own(args, 2), distro_id: own(args, 3), output_dir: own(args, 4) })
    } else if n == 4 && arg_is(args, 0, "artifact") && arg_is(args, 1, "prepare-s01-boot-inputs") {
        Some(CompatCommand::PrepareStageInputs { stage: String::from_str("01Boot"), distro_id: own(args, 2), output_dir: own(args, 3) })
    } else if n == 4 && arg_is(args, 0, "artifact") && arg_is(args, 1, "prepare-s02-live-tools-inputs") {
        Some(CompatCommand::PrepareStageInputs { stage: String::from_str("02LiveTools"), distro_id: own(args, 2), output_dir: own(args, 3) })
    } else if n == 4 && arg_is(args, 0, "artifact") && arg_is(args, 1, "prepare-s00-build-inputs") {
        Some(CompatCommand::PrepareStageInputs { stage: String::from_str("00Build"), distro_id: own(args, 2), output_dir: own(args, 3) })
    } else {
        None
    }
}

} // verus!
