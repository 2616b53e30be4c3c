//! Kernelspec store: discovery of kernel specifications from storage.
//!
//! A kernelspec is a directory holding a `kernel.json` descriptor naming how
//! to launch a code-execution backend for one language. Discovery scans the
//! immediate children of a kernels directory, parses each descriptor, skips
//! the invalid ones, and returns the valid specifications; a single bad
//! kernelspec never aborts the scan.

use vstd::prelude::*;
use vstd::string::StringExecFns;
use crate::storage::{FsEntry, Storage, is_direct_child, is_dir_listing};
use crate::strutil::{file_name, last_component, path_join, str_eq};

verus! {

/// The contents of a `kernel.json` descriptor: display name, language
/// identifier, argv template, and environment variable mapping.
#[derive(Debug)]
pub struct Kernelspec {
    pub display_name: String,
    pub language: String,
    pub argv: Vec<String>,
    pub env: Vec<(String, String)>,
}

/// The mathematical content of a [`Kernelspec`]: the environment is read as
/// a map, so its pair order carries no meaning.
pub struct KernelspecView {
    pub display_name: Seq<char>,
    pub language: Seq<char>,
    pub argv: Seq<Seq<char>>,
    pub env: Map<Seq<char>, Seq<char>>,
}

/// The map described by a sequence of key-value pairs, later pairs
/// overriding earlier ones.
pub open spec fn env_map(pairs: Seq<(String, String)>) -> Map<Seq<char>, Seq<char>>
    decreases pairs.len(),
{
    if pairs.len() == 0 {
        Map::empty()
    } else {
        env_map(pairs.drop_last()).insert(pairs.last().0@, pairs.last().1@)
    }
}

impl View for Kernelspec {
    type V = KernelspecView;

    open spec fn view(&self) -> KernelspecView {
        KernelspecView {
            display_name: self.display_name@,
            language: self.language@,
            argv: self.argv.deep_view(),
            env: env_map(self.env@),
        }
    }
}

/// What the kernel-specification schema makes of a descriptor text:
/// `Some` with the parsed fields when the text is a well-formed descriptor,
/// `None` otherwise. The result depends on the text alone.
pub uninterp spec fn kernelspec_of(text: Seq<char>) -> Option<KernelspecView>;

/// Relies on serde_json::from_str with jupyter_protocol's `JupyterKernelspec`:
/// parses the kernel-specification schema (display name, language, argv,
/// optional environment mapping) from JSON text; the result is a function
/// of the text alone, named `kernelspec_of`.
#[verifier::external_body]
fn parse_kernelspec(text: &String) -> (r: Option<Kernelspec>)
    ensures
        match r {
            Some(k) => kernelspec_of(text@) == Some(k@),
            None => kernelspec_of(text@) is None,
        },
{
    match serde_json::from_str::<jupyter_protocol::JupyterKernelspec>(text.as_str()) {
        Ok(spec) => Some(Kernelspec {
            display_name: spec.display_name,
            language: spec.language,
            argv: spec.argv,
            env: spec.env.map(|m| m.into_iter().collect()).unwrap_or_default(),
        }),
        Err(_) => None,
    }
}

/// A discovered kernel specification: the kernelspec directory's name, its
/// full path, and the parsed descriptor.
#[derive(Debug)]
pub struct RuntimeSpecification {
    pub name: String,
    pub path: String,
    pub kernelspec: Kernelspec,
}

pub struct RuntimeSpecificationView {
    pub name: Seq<char>,
    pub path: Seq<char>,
    pub kernelspec: KernelspecView,
}

impl View for RuntimeSpecification {
    type V = RuntimeSpecificationView;

    open spec fn view(&self) -> RuntimeSpecificationView {
        RuntimeSpecificationView {
            name: self.name@,
            path: self.path@,
            kernelspec: self.kernelspec@,
        }
    }
}

fn clone_string_vec(v: &Vec<String>) -> (r: Vec<String>)
    ensures
        r@ == v@,
{
    let mut r: Vec<String> = Vec::new();
    let n = v.len();
    let mut i: usize = 0;
    while i < n
        invariant
            n == v@.len(),
            i <= n,
            r@ == v@.take(i as int),
        decreases n - i,
    {
        r.push(v[i].clone());
        i = i + 1;
        proof {
            assert(r@ =~= v@.take(i as int));
        }
    }
    proof {
        assert(v@.take(n as int) =~= v@);
    }
    r
}

/// A copy of a vector of string pairs, with the same content.
pub fn clone_env_pairs(v: &Vec<(String, String)>) -> (r: Vec<(String, String)>)
    ensures
        r@ == v@,
{
    let mut r: Vec<(String, String)> = Vec::new();
    let n = v.len();
    let mut i: usize = 0;
    while i < n
        invariant
            n == v@.len(),
            i <= n,
            r@ == v@.take(i as int),
        decreases n - i,
    {
        let key = v[i].0.clone();
        let value = v[i].1.clone();
        r.push((key, value));
        proof {
            assert((key, value) == v@[i as int]);
        }
        i = i + 1;
        proof {
            assert(r@ =~= v@.take(i as int));
        }
    }
    proof {
        assert(v@.take(n as int) =~= v@);
    }
    r
}

impl Kernelspec {
    /// A copy of this kernelspec with the same content.
    pub fn duplicate(&self) -> (r: Kernelspec)
        ensures
            r@ == self@,
    {
        let r = Kernelspec {
            display_name: self.display_name.clone(),
            language: self.language.clone(),
            argv: clone_string_vec(&self.argv),
            env: clone_env_pairs(&self.env),
        };
        proof {
            assert(r.argv.deep_view() =~= self.argv.deep_view());
        }
        r
    }
}

impl RuntimeSpecification {
    /// A copy of this specification with the same content.
    pub fn duplicate(&self) -> (r: RuntimeSpecification)
        ensures
            r@ == self@,
    {
        RuntimeSpecification {
            name: self.name.clone(),
            path: self.path.clone(),
            kernelspec: self.kernelspec.duplicate(),
        }
    }
}

/// Why one kernelspec candidate was rejected; local to that candidate, the
/// scan of the others goes on.
#[derive(Debug)]
pub enum KernelspecError {
    /// The directory path has an empty file name.
    EmptyName,
    /// The path does not name a directory.
    NotADirectory,
    /// No `kernel.json` file stands directly inside the directory.
    MissingDescriptor,
    /// The descriptor text is not a well-formed kernel specification.
    InvalidDescriptor,
}

/// The full path of the descriptor file inside a kernelspec directory.
pub open spec fn descriptor_path(dir: Seq<char>) -> Seq<char> {
    dir + "/"@ + "kernel.json"@
}

/// The text of the file at `path` under the model `m`, when there is one.
pub open spec fn file_text_at(m: Map<Seq<char>, FsEntry>, path: Seq<char>) -> Option<Seq<char>> {
    if m.contains_key(path) && m[path] is File {
        Some(m[path]->File_0)
    } else {
        None
    }
}

/// Why the directory `dir` is not a valid kernelspec directory under the
/// storage model `m`, or `None` when it is one.
pub open spec fn kernelspec_diagnosis(m: Map<Seq<char>, FsEntry>, dir: Seq<char>) -> Option<
    KernelspecError,
> {
    if last_component(dir).len() == 0 {
        Some(KernelspecError::EmptyName)
    } else if !(m.contains_key(dir) && m[dir] is Dir) {
        Some(KernelspecError::NotADirectory)
    } else if file_text_at(m, descriptor_path(dir)) is None {
        Some(KernelspecError::MissingDescriptor)
    } else if kernelspec_of(file_text_at(m, descriptor_path(dir))->Some_0) is None {
        Some(KernelspecError::InvalidDescriptor)
    } else {
        None
    }
}

/// `dir` is a valid kernelspec directory under the storage model `m`.
pub open spec fn valid_kernelspec_dir(m: Map<Seq<char>, FsEntry>, dir: Seq<char>) -> bool {
    kernelspec_diagnosis(m, dir) is None
}

/// The specification discovered at a valid kernelspec directory.
pub open spec fn spec_of_dir(m: Map<Seq<char>, FsEntry>, dir: Seq<char>) -> RuntimeSpecificationView {
    RuntimeSpecificationView {
        name: last_component(dir),
        path: dir,
        kernelspec: kernelspec_of(file_text_at(m, descriptor_path(dir))->Some_0)->Some_0,
    }
}

/// Reads one kernelspec directory: its name is the directory's file name,
/// its descriptor the `kernel.json` directly inside it. Fails exactly as
/// `kernelspec_diagnosis` describes.
pub fn read_kernelspec_at<S: Storage>(kernel_dir: &String, storage: &S) -> (r: Result<
    RuntimeSpecification,
    KernelspecError,
>)
    ensures
        match r {
            Ok(spec) => valid_kernelspec_dir(storage.model(), kernel_dir@) && spec@ == spec_of_dir(
                storage.model(),
                kernel_dir@,
            ),
            Err(e) => kernelspec_diagnosis(storage.model(), kernel_dir@) == Some(e),
        },
{
    let kernel_name = file_name(kernel_dir);
    if kernel_name.as_str().is_empty() {
        return Err(KernelspecError::EmptyName);
    }
    if !storage.is_dir(kernel_dir) {
        return Err(KernelspecError::NotADirectory);
    }
    let expected_kernel_json = path_join(kernel_dir, "kernel.json");
    let text = match storage.load(&expected_kernel_json) {
        Some(text) => text,
        None => {
            return Err(KernelspecError::MissingDescriptor);
        },
    };
    let spec = match parse_kernelspec(&text) {
        Some(spec) => spec,
        None => {
            return Err(KernelspecError::InvalidDescriptor);
        },
    };
    Ok(RuntimeSpecification { name: kernel_name, path: kernel_dir.clone(), kernelspec: spec })
}

/// `specs` is exactly the set of valid kernelspec directories directly
/// inside `dir` under the model `m`, each carrying its discovered
/// specification, without duplicates.
pub open spec fn complete_discovery(
    m: Map<Seq<char>, FsEntry>,
    dir: Seq<char>,
    specs: Seq<RuntimeSpecification>,
) -> bool {
    &&& forall|i: int|
        0 <= i < specs.len() ==> is_direct_child(dir, (#[trigger] specs[i])@.path)
            && valid_kernelspec_dir(m, specs[i]@.path) && specs[i]@ == spec_of_dir(
            m,
            specs[i]@.path,
        )
    &&& forall|k: Seq<char>|
        #[trigger] m.contains_key(k) && is_direct_child(dir, k) && valid_kernelspec_dir(m, k)
            ==> exists|i: int| 0 <= i < specs.len() && specs[i]@.path == k
    &&& forall|i: int, j: int| 0 <= i < j < specs.len() ==> specs[i]@.path != specs[j]@.path
}

/// Reads a directory of kernelspec directories: every valid child yields a
/// specification, every invalid child is skipped, and no failure of one
/// child aborts the scan. `Err` only when `path` is not a directory.
pub fn read_kernels_dir<S: Storage>(path: &String, storage: &S) -> (r: Result<
    Vec<RuntimeSpecification>,
    KernelspecError,
>)
    ensures
        match r {
            Ok(specs) => storage.model().contains_key(path@) && storage.model()[path@] is Dir
                && complete_discovery(storage.model(), path@, specs@),
            Err(e) => e is NotADirectory && !(storage.model().contains_key(path@)
                && storage.model()[path@] is Dir),
        },
{
    let children = match storage.read_dir(path) {
        Some(children) => children,
        None => {
            return Err(KernelspecError::NotADirectory);
        },
    };
    let n = children.len();
    let mut specs: Vec<RuntimeSpecification> = Vec::new();
    let mut i: usize = 0;
    while i < n
        invariant
            n == children@.len(),
            i <= n,
            is_dir_listing(storage.model(), path@, children@),
            forall|q: int|
                0 <= q < specs@.len() ==> exists|j: int|
                    0 <= j < i && children@[j]@ == (#[trigger] specs@[q])@.path,
            forall|q: int|
                0 <= q < specs@.len() ==> is_direct_child(path@, (#[trigger] specs@[q])@.path)
                    && valid_kernelspec_dir(storage.model(), specs@[q]@.path) && specs@[q]@
                    == spec_of_dir(storage.model(), specs@[q]@.path),
            forall|j: int|
                0 <= j < i && valid_kernelspec_dir(storage.model(), (#[trigger] children@[j])@)
                    ==> exists|q: int| 0 <= q < specs@.len() && specs@[q]@.path == children@[j]@,
            forall|p: int, q: int| 0 <= p < q < specs@.len() ==> specs@[p]@.path != specs@[q]@.path,
        decreases n - i,
    {
        let child = &children[i];
        let ghost prev = specs@;
        match read_kernelspec_at(child, storage) {
            Ok(spec) => {
                proof {
                    assert(spec@.path == child@);
                }
                specs.push(spec);
            },
            Err(_) => {},
        }
        proof {
            assert forall|q: int| 0 <= q < specs@.len() implies exists|j: int|
                0 <= j < i + 1 && children@[j]@ == (#[trigger] specs@[q])@.path by {
                if q < prev.len() {
                    let j = choose|j: int| 0 <= j < i && children@[j]@ == prev[q]@.path;
                    assert(children@[j]@ == specs@[q]@.path);
                } else {
                    assert(children@[i as int]@ == specs@[q]@.path);
                }
            }
            assert forall|j: int|
                0 <= j < i + 1 && valid_kernelspec_dir(
                    storage.model(),
                    (#[trigger] children@[j])@,
                ) implies exists|q: int|
                0 <= q < specs@.len() && specs@[q]@.path == children@[j]@ by {
                if j < i {
                    let q = choose|q: int| 0 <= q < prev.len() && prev[q]@.path == children@[j]@;
                    assert(specs@[q]@.path == children@[j]@);
                } else {
                    assert(specs@[specs@.len() - 1]@.path == children@[j]@);
                }
            }
            assert forall|p: int, q: int| 0 <= p < q < specs@.len() implies specs@[p]@.path
                != specs@[q]@.path by {
                if q == prev.len() && specs@.len() > prev.len() {
                    let jp = choose|j: int| 0 <= j < i && children@[j]@ == prev[p]@.path;
                    assert(children@[jp]@ != children@[i as int]@);
                }
            }
        }
        i = i + 1;
    }
    Ok(specs)
}

/// The kernels directory under one data directory.
pub open spec fn kernels_path(data_dir: Seq<char>) -> Seq<char> {
    data_dir + "/"@ + "kernels"@
}

/// When `root` is a directory under `m`, every valid kernelspec directory
/// directly inside it appears among `specs`.
pub open spec fn root_covered(
    m: Map<Seq<char>, FsEntry>,
    root: Seq<char>,
    specs: Seq<RuntimeSpecification>,
) -> bool {
    (m.contains_key(root) && m[root] is Dir) ==> forall|k: Seq<char>|
        #[trigger] m.contains_key(k) && is_direct_child(root, k) && valid_kernelspec_dir(m, k)
            ==> exists|i: int| 0 <= i < specs.len() && specs[i]@.path == k
}

/// Every specification of `specs` is a valid kernelspec directory directly
/// inside the `kernels` directory of one of the `roots`, read correctly.
pub open spec fn discovery_sound(
    m: Map<Seq<char>, FsEntry>,
    roots: Seq<String>,
    specs: Seq<RuntimeSpecification>,
) -> bool {
    forall|i: int|
        0 <= i < specs.len() ==> exists|d: int|
            0 <= d < roots.len() && is_direct_child(
                kernels_path(roots[d]@),
                (#[trigger] specs[i])@.path,
            ) && valid_kernelspec_dir(m, specs[i]@.path) && specs[i]@ == spec_of_dir(
                m,
                specs[i]@.path,
            )
}

/// Discovers kernel specifications under every data directory's `kernels`
/// subdirectory. A root that is missing or not a directory contributes
/// nothing; every valid kernelspec under a present root is returned.
pub fn get_runtime_specifications<S: Storage>(data_dirs: &Vec<String>, storage: &S) -> (r: Vec<
    RuntimeSpecification,
>)
    ensures
        discovery_sound(storage.model(), data_dirs@, r@),
        forall|d: int|
            0 <= d < data_dirs@.len() ==> root_covered(
                storage.model(),
                kernels_path((#[trigger] data_dirs@[d])@),
                r@,
            ),
{
    let n = data_dirs.len();
    let mut all: Vec<RuntimeSpecification> = Vec::new();
    let mut d: usize = 0;
    while d < n
        invariant
            n == data_dirs@.len(),
            d <= n,
            discovery_sound(storage.model(), data_dirs@, all@),
            forall|e: int|
                0 <= e < d ==> root_covered(
                    storage.model(),
                    kernels_path((#[trigger] data_dirs@[e])@),
                    all@,
                ),
        decreases n - d,
    {
        let kernels_dir = path_join(&data_dirs[d], "kernels");
        let ghost prev = all@;
        match read_kernels_dir(&kernels_dir, storage) {
            Ok(mut specs) => {
                let ghost found = specs@;
                all.append(&mut specs);
                proof {
                    assert(all@ == prev + found);
                    assert forall|i: int| 0 <= i < all@.len() implies exists|e: int|
                        0 <= e < data_dirs@.len() && is_direct_child(
                            kernels_path(data_dirs@[e]@),
                            (#[trigger] all@[i])@.path,
                        ) && valid_kernelspec_dir(storage.model(), all@[i]@.path) && all@[i]@
                        == spec_of_dir(storage.model(), all@[i]@.path) by {
                        if i < prev.len() {
                            assert(all@[i] == prev[i]);
                            assert(discovery_sound(storage.model(), data_dirs@, prev));
                            let e = choose|e: int|
                                0 <= e < data_dirs@.len() && is_direct_child(
                                    kernels_path(data_dirs@[e]@),
                                    prev[i]@.path,
                                ) && valid_kernelspec_dir(storage.model(), prev[i]@.path)
                                    && prev[i]@ == spec_of_dir(storage.model(), prev[i]@.path);
                            assert(is_direct_child(
                                kernels_path(data_dirs@[e]@),
                                all@[i]@.path,
                            ));
                        } else {
                            assert(all@[i] == found[i - prev.len()]);
                            assert(is_direct_child(
                                kernels_path(data_dirs@[d as int]@),
                                all@[i]@.path,
                            ));
                        }
                    }
                    assert(root_covered(storage.model(), kernels_dir@, all@)) by {
                        assert forall|k: Seq<char>|
                            #[trigger] storage.model().contains_key(k) && is_direct_child(
                                kernels_dir@,
                                k,
                            ) && valid_kernelspec_dir(storage.model(), k) implies exists|i: int|
                            0 <= i < all@.len() && all@[i]@.path == k by {
                            let q = choose|q: int|
                                0 <= q < found.len() && found[q]@.path == k;
                            assert(all@[prev.len() + q]@.path == k);
                        }
                    }
                }
            },
            Err(_) => {
                proof {
                    assert(root_covered(storage.model(), kernels_dir@, all@));
                }
            },
        }
        proof {
            assert forall|e: int| 0 <= e < d + 1 implies root_covered(
                storage.model(),
                kernels_path((#[trigger] data_dirs@[e])@),
                all@,
            ) by {
                if e < d {
                    if storage.model().contains_key(kernels_path(data_dirs@[e]@))
                        && storage.model()[kernels_path(data_dirs@[e]@)] is Dir {
                        assert forall|k: Seq<char>|
                            #[trigger] storage.model().contains_key(k) && is_direct_child(
                                kernels_path(data_dirs@[e]@),
                                k,
                            ) && valid_kernelspec_dir(storage.model(), k) implies exists|i: int|
                            0 <= i < all@.len() && all@[i]@.path == k by {
                            assert(root_covered(
                                storage.model(),
                                kernels_path(data_dirs@[e]@),
                                prev,
                            ));
                            let i = choose|i: int| 0 <= i < prev.len() && prev[i]@.path == k;
                            assert(all@[i]@.path == k);
                        }
                    }
                } else {
                    assert(kernels_path(data_dirs@[e]@) == kernels_dir@);
                }
            }
        }
        d = d + 1;
    }
    all
}

/// The message reported synchronously to a caller asking to run code in a
/// language no discovered kernelspec supports.
pub fn no_kernel_message(language_name: &str) -> (m: String)
    ensures
        m@ == "No kernel found for language: "@ + language_name@,
{
    let mut m = "No kernel found for language: ".to_owned();
    m.append(language_name);
    m
}

/// The first specification whose language identifier matches exactly, if any.
pub fn kernelspec(specs: &Vec<RuntimeSpecification>, language_name: &str) -> (r: Option<
    RuntimeSpecification,
>)
    ensures
        match r {
            Some(s) => exists|i: int|
                {
                    &&& 0 <= i < specs@.len()
                    &&& (#[trigger] specs@[i])@ == s@
                    &&& specs@[i]@.kernelspec.language == language_name@
                    &&& forall|j: int|
                        0 <= j < i ==> (#[trigger] specs@[j])@.kernelspec.language
                            != language_name@
                },
            None => forall|i: int|
                0 <= i < specs@.len() ==> (#[trigger] specs@[i])@.kernelspec.language
                    != language_name@,
        },
{
    let n = specs.len();
    let mut i: usize = 0;
    while i < n
        invariant
            n == specs@.len(),
            i <= n,
            forall|j: int|
                0 <= j < i ==> (#[trigger] specs@[j])@.kernelspec.language != language_name@,
        decreases n - i,
    {
        if str_eq(specs[i].kernelspec.language.as_str(), language_name) {
            let found = specs[i].duplicate();
            proof {
                assert(specs@[i as int]@ == found@);
            }
            return Some(found);
        }
        i = i + 1;
    }
    None
}

} // verus!
