//! The `wasi_ephemeral_nn` functions: a model configured by a string such as
//! `default:GGML:AUTO:llama-2-7b-chat-q5_k_m.gguf`, and the graph handles that
//! modules ask for by the model's name.
use super::preview1::{copied, write_bytes};
use crate::binary::reader::string_from_utf8;
use crate::endian::{le_byte, pow256};
use crate::execution::error::RuntimeError;
use crate::execution::module::InternalMemoryInst;
use vstd::prelude::*;
use vstd::string::*;
use vstd::utf8::*;

verus! {

/// `s` cut at each `:`, as `str::split(':')` cuts it: `n` colons give `n + 1`
/// pieces, empty ones included.
pub open spec fn split_colons(s: Seq<char>) -> Seq<Seq<char>>
    decreases s.len(),
{
    if s.len() == 0 {
        seq![Seq::empty()]
    } else {
        let prev = split_colons(s.drop_last());
        if s.last() == ':' {
            prev.push(Seq::empty())
        } else {
            prev.update(prev.len() - 1, prev.last().push(s.last()))
        }
    }
}

/// Cutting always gives at least one piece.
pub proof fn lemma_split_colons_len(s: Seq<char>)
    ensures
        split_colons(s).len() >= 1,
    decreases s.len(),
{
    if s.len() > 0 {
        lemma_split_colons_len(s.drop_last());
    }
}

/// The pieces of `s` between colons, as ranges of character positions.
fn colon_fields(s: &str) -> (r: Vec<(usize, usize)>)
    ensures
        r@.len() == split_colons(s@).len(),
        forall|k: int|
            0 <= k < r@.len() ==> #[trigger] r@[k].0 <= r@[k].1 <= s@.len() && s@.subrange(
                r@[k].0 as int,
                r@[k].1 as int,
            ) == split_colons(s@)[k],
{
    let n = s.unicode_len();
    let mut bounds: Vec<(usize, usize)> = Vec::new();
    let mut start: usize = 0;
    let mut i: usize = 0;
    while i < n
        invariant
            n == s@.len(),
            i <= n,
            start <= i,
            bounds@.len() + 1 == split_colons(s@.take(i as int)).len(),
            s@.subrange(start as int, i as int) == split_colons(s@.take(i as int)).last(),
            forall|k: int|
                0 <= k < bounds@.len() ==> #[trigger] bounds@[k].0 <= bounds@[k].1 <= start
                    && s@.subrange(bounds@[k].0 as int, bounds@[k].1 as int) == split_colons(
                    s@.take(i as int),
                )[k],
        decreases n - i,
    {
        let c = s.get_char(i);
        proof {
            let t = s@.take(i + 1);
            assert(t.drop_last() =~= s@.take(i as int));
            assert(t.last() == c);
            lemma_split_colons_len(s@.take(i as int));
            assert(s@.subrange(start as int, i + 1) =~= s@.subrange(start as int, i as int).push(c));
        }
        let ghost prev = split_colons(s@.take(i as int));
        let ghost old_bounds = bounds@;
        let ghost old_start = start;
        if c == ':' {
            bounds.push((start, i));
            start = i + 1;
        }
        i = i + 1;
        proof {
            let cur = split_colons(s@.take(i as int));
            assert forall|k: int| 0 <= k < old_bounds.len() implies cur[k] == prev[k] by {}
            assert forall|k: int| 0 <= k < bounds@.len() implies #[trigger] bounds@[k].0 <= bounds@[k].1
                <= start && s@.subrange(bounds@[k].0 as int, bounds@[k].1 as int) == cur[k] by {
                if k < old_bounds.len() {
                    assert(bounds@[k] == old_bounds[k]);
                    assert(s@.subrange(old_bounds[k].0 as int, old_bounds[k].1 as int) == prev[k]);
                } else {
                    assert(bounds@[k] == (old_start, (i - 1) as usize));
                    assert(cur[k] == prev.last());
                    assert(s@.subrange(old_start as int, i - 1) == prev.last());
                }
            }
        }
    }
    bounds.push((start, n));
    proof {
        assert(s@.take(n as int) =~= s@);
        lemma_split_colons_len(s@);
    }
    bounds
}

/// Whether `c` is `w` or, when `w` is a small ASCII letter, its capital: the
/// characters that `char::to_lowercase` turns into `w`.
pub open spec fn folds_to(c: char, w: char) -> bool {
    c == w || ('a' <= w <= 'z' && (c as u32) + 32 == (w as u32))
}

/// Whether `s` lowercased is `w`, a word of small ASCII letters.
pub open spec fn folds_to_word(s: Seq<char>, w: Seq<char>) -> bool {
    s.len() == w.len() && forall|k: int| 0 <= k < s.len() ==> folds_to(#[trigger] s[k], w[k])
}

/// Whether the characters of `s` from `from` to `to` are `w`, exactly or, with
/// `fold`, once lowercased.
fn matches_word(s: &str, from: usize, to: usize, w: &[char], fold: bool) -> (r: bool)
    requires
        from <= to <= s@.len(),
    ensures
        !fold ==> r == (s@.subrange(from as int, to as int) == w@),
        fold ==> r == folds_to_word(s@.subrange(from as int, to as int), w@),
{
    if to - from != w.len() {
        return false;
    }
    let mut k: usize = 0;
    while k < w.len()
        invariant
            from <= to <= s@.len(),
            to - from == w@.len(),
            k <= w@.len(),
            forall|j: int|
                0 <= j < k ==> if fold {
                    folds_to(#[trigger] s@[from + j], w@[j])
                } else {
                    s@[from + j] == w@[j]
                },
        decreases w@.len() - k,
    {
        let c = s.get_char(from + k);
        let d = w[k];
        let same = if fold {
            c == d || ('a' <= d && d <= 'z' && (c as u32) + 32 == (d as u32))
        } else {
            c == d
        };
        if !same {
            proof {
                assert(s@.subrange(from as int, to as int)[k as int] == c);
            }
            return false;
        }
        k = k + 1;
    }
    proof {
        let sub = s@.subrange(from as int, to as int);
        assert forall|j: int| 0 <= j < sub.len() implies sub[j] == s@[from + j] by {}
        assert(!fold ==> sub =~= w@);
    }
    true
}

/// The kinds of engine that can run a model.
#[derive(Clone, Copy, Debug, PartialEq, Eq, Structural)]
pub enum Backend {
    OpenVINO,
    ONNX,
    Tensorflow,
    PyTorch,
    TensorflowLite,
    Autodetect,
    GGML,
}

/// The backend called `s`, if any.
pub open spec fn backend_named(s: Seq<char>) -> Option<Backend> {
    if s == seq!['o', 'p', 'e', 'n', 'v', 'i', 'n', 'o'] {
        Some(Backend::OpenVINO)
    } else if s == seq!['o', 'n', 'n', 'x'] {
        Some(Backend::ONNX)
    } else if s == seq!['t', 'e', 'n', 's', 'o', 'r', 'f', 'l', 'o', 'w'] {
        Some(Backend::Tensorflow)
    } else if s == seq!['p', 'y', 't', 'o', 'r', 'c', 'h'] {
        Some(Backend::PyTorch)
    } else if s == seq!['t', 'e', 'n', 's', 'o', 'r', 'f', 'l', 'o', 'w', 'l', 'i', 't', 'e'] {
        Some(Backend::TensorflowLite)
    } else if s == seq!['a', 'u', 't', 'o', 'd', 'e', 't', 'e', 'c', 't'] {
        Some(Backend::Autodetect)
    } else if s == seq!['g', 'g', 'm', 'l'] {
        Some(Backend::GGML)
    } else {
        None
    }
}

impl Backend {
    /// The backend called `s` (in small letters), if any.
    pub fn from_name(s: &str) -> (r: Option<Backend>)
        ensures
            r == backend_named(s@),
    {
        let n = s.unicode_len();
        proof {
            assert(s@.subrange(0, n as int) =~= s@);
        }
        let w: &[char] = &['o', 'p', 'e', 'n', 'v', 'i', 'n', 'o'];
        assert(w@ =~= seq!['o', 'p', 'e', 'n', 'v', 'i', 'n', 'o']);
        if matches_word(s, 0, n, w, false) {
            return Some(Backend::OpenVINO);
        }
        let w: &[char] = &['o', 'n', 'n', 'x'];
        assert(w@ =~= seq!['o', 'n', 'n', 'x']);
        if matches_word(s, 0, n, w, false) {
            return Some(Backend::ONNX);
        }
        let w: &[char] = &['t', 'e', 'n', 's', 'o', 'r', 'f', 'l', 'o', 'w'];
        assert(w@ =~= seq!['t', 'e', 'n', 's', 'o', 'r', 'f', 'l', 'o', 'w']);
        if matches_word(s, 0, n, w, false) {
            return Some(Backend::Tensorflow);
        }
        let w: &[char] = &['p', 'y', 't', 'o', 'r', 'c', 'h'];
        assert(w@ =~= seq!['p', 'y', 't', 'o', 'r', 'c', 'h']);
        if matches_word(s, 0, n, w, false) {
            return Some(Backend::PyTorch);
        }
        let w: &[char] = &['t', 'e', 'n', 's', 'o', 'r', 'f', 'l', 'o', 'w', 'l', 'i', 't', 'e'];
        assert(w@ =~= seq!['t', 'e', 'n', 's', 'o', 'r', 'f', 'l', 'o', 'w', 'l', 'i', 't', 'e']);
        if matches_word(s, 0, n, w, false) {
            return Some(Backend::TensorflowLite);
        }
        let w: &[char] = &['a', 'u', 't', 'o', 'd', 'e', 't', 'e', 'c', 't'];
        assert(w@ =~= seq!['a', 'u', 't', 'o', 'd', 'e', 't', 'e', 'c', 't']);
        if matches_word(s, 0, n, w, false) {
            return Some(Backend::Autodetect);
        }
        let w: &[char] = &['g', 'g', 'm', 'l'];
        assert(w@ =~= seq!['g', 'g', 'm', 'l']);
        if matches_word(s, 0, n, w, false) {
            return Some(Backend::GGML);
        }
        None
    }
}

/// The kinds of processor that can run a model.
#[derive(Clone, Copy, Debug, PartialEq, Eq, Structural)]
pub enum Device {
    CPU,
    GPU,
    TPU,
    AUTO,
}

/// The device called `s`, if any.
pub open spec fn device_named(s: Seq<char>) -> Option<Device> {
    if s == seq!['c', 'p', 'u'] {
        Some(Device::CPU)
    } else if s == seq!['g', 'p', 'u'] {
        Some(Device::GPU)
    } else if s == seq!['t', 'p', 'u'] {
        Some(Device::TPU)
    } else if s == seq!['a', 'u', 't', 'o'] {
        Some(Device::AUTO)
    } else {
        None
    }
}

/// The device called `s` once `s` is lowercased, if any.
pub open spec fn device_named_lowercased(s: Seq<char>) -> Option<Device> {
    if folds_to_word(s, seq!['c', 'p', 'u']) {
        Some(Device::CPU)
    } else if folds_to_word(s, seq!['g', 'p', 'u']) {
        Some(Device::GPU)
    } else if folds_to_word(s, seq!['t', 'p', 'u']) {
        Some(Device::TPU)
    } else if folds_to_word(s, seq!['a', 'u', 't', 'o']) {
        Some(Device::AUTO)
    } else {
        None
    }
}

/// The device named by the characters of `s` from `from` to `to`: exactly,
/// or with `fold` once lowercased.
fn device_between(s: &str, from: usize, to: usize, fold: bool) -> (r: Option<Device>)
    requires
        from <= to <= s@.len(),
    ensures
        !fold ==> r == device_named(s@.subrange(from as int, to as int)),
        fold ==> r == device_named_lowercased(s@.subrange(from as int, to as int)),
{
    let w: &[char] = &['c', 'p', 'u'];
    assert(w@ =~= seq!['c', 'p', 'u']);
    if matches_word(s, from, to, w, fold) {
        return Some(Device::CPU);
    }
    let w: &[char] = &['g', 'p', 'u'];
    assert(w@ =~= seq!['g', 'p', 'u']);
    if matches_word(s, from, to, w, fold) {
        return Some(Device::GPU);
    }
    let w: &[char] = &['t', 'p', 'u'];
    assert(w@ =~= seq!['t', 'p', 'u']);
    if matches_word(s, from, to, w, fold) {
        return Some(Device::TPU);
    }
    let w: &[char] = &['a', 'u', 't', 'o'];
    assert(w@ =~= seq!['a', 'u', 't', 'o']);
    if matches_word(s, from, to, w, fold) {
        return Some(Device::AUTO);
    }
    None
}

impl Device {
    /// The device called `s` (in small letters), if any.
    pub fn from_name(s: &str) -> (r: Option<Device>)
        ensures
            r == device_named(s@),
    {
        let n = s.unicode_len();
        proof {
            assert(s@.subrange(0, n as int) =~= s@);
        }
        device_between(s, 0, n, false)
    }
}

/// A graph that a backend built from a model.
pub struct Graph {}

/// A context in which a graph is run.
pub struct Context {}

/// Why a model string is refused.
#[derive(Clone, Copy, Debug, PartialEq, Eq, Structural)]
pub enum ModelSpecError {
    /// It has no second field, the backend.
    MissingBackend,
    /// Its backend is not `GGML`, the only one supported.
    UnsupportedBackend,
    /// It has no third field, the device.
    MissingDevice,
    /// It has no fourth field, the model's path.
    MissingPath,
    /// Its device, lowercased, is none of `cpu`, `gpu`, `tpu` and `auto`.
    UnknownDevice,
}

/// A model string read: `name:backend:device:path`, where anything after a
/// fourth colon is ignored.
#[derive(Debug)]
pub struct ModelSpec {
    pub name: String,
    pub backend: Backend,
    pub device: Device,
    pub path: String,
}

/// What a model string says: the model's name, its device and its path.
pub open spec fn spec_model_spec(s: Seq<char>) -> Result<(Seq<char>, Device, Seq<char>), ModelSpecError> {
    let f = split_colons(s);
    if f.len() < 2 {
        Err(ModelSpecError::MissingBackend)
    } else if f[1] != seq!['G', 'G', 'M', 'L'] {
        Err(ModelSpecError::UnsupportedBackend)
    } else if f.len() < 3 {
        Err(ModelSpecError::MissingDevice)
    } else if f.len() < 4 {
        Err(ModelSpecError::MissingPath)
    } else {
        match device_named_lowercased(f[2]) {
            Some(d) => Ok((f[0], d, f[3])),
            None => Err(ModelSpecError::UnknownDevice),
        }
    }
}

/// Reads a model string such as `default:GGML:AUTO:llama-2-7b-chat-q5_k_m.gguf`.
pub fn parse_model_spec(model_path: &str) -> (r: Result<ModelSpec, ModelSpecError>)
    ensures
        match r {
            Ok(m) => m.backend == Backend::GGML && spec_model_spec(model_path@) == Ok::<
                (Seq<char>, Device, Seq<char>),
                ModelSpecError,
            >((m.name@, m.device, m.path@)),
            Err(e) => spec_model_spec(model_path@) == Err::<(Seq<char>, Device, Seq<char>), ModelSpecError>(e),
        },
{
    let f = colon_fields(model_path);
    if f.len() < 2 {
        return Err(ModelSpecError::MissingBackend);
    }
    let w: &[char] = &['G', 'G', 'M', 'L'];
    assert(w@ =~= seq!['G', 'G', 'M', 'L']);
    if !matches_word(model_path, f[1].0, f[1].1, w, false) {
        return Err(ModelSpecError::UnsupportedBackend);
    }
    if f.len() < 3 {
        return Err(ModelSpecError::MissingDevice);
    }
    if f.len() < 4 {
        return Err(ModelSpecError::MissingPath);
    }
    let device = match device_between(model_path, f[2].0, f[2].1, true) {
        Some(d) => d,
        None => return Err(ModelSpecError::UnknownDevice),
    };
    let name = model_path.substring_char(f[0].0, f[0].1).to_owned();
    let path = model_path.substring_char(f[3].0, f[3].1).to_owned();
    Ok(ModelSpec { name, backend: Backend::GGML, device, path })
}

/// What a backend is given to build a model: its data, with the backend and
/// the device that run it.
pub struct RawModel {
    pub data: Vec<u8>,
    pub backend: Backend,
    pub device: Device,
}

/// The `wasi_ephemeral_nn` host: the models it knows by name, and the graphs
/// built from them.
pub struct WasiEphemeralNn {
    pub model_path: String,
    /// Built graphs, by the name of their model.
    pub model_map: Vec<(String, i32)>,
    /// Models that can be built, by name.
    pub raw_model_map: Vec<(String, RawModel)>,
    pub nn_graph: Vec<Graph>,
    pub nn_context: Vec<Context>,
}

/// The bytes `preload:`, which tell a backend to load the model from the path
/// that follows them.
pub open spec fn preload_prefix() -> Seq<u8> {
    seq![112u8, 114u8, 101u8, 108u8, 111u8, 97u8, 100u8, 58u8]
}

/// Whether `map` holds `name` as a key.
pub open spec fn has_key<T>(map: Seq<(String, T)>, name: Seq<char>) -> bool {
    exists|k: int| 0 <= k < map.len() && (#[trigger] map[k]).0@ == name
}

/// Whether no two entries of `map` have the same key.
pub open spec fn keys_distinct<T>(map: Seq<(String, T)>) -> bool {
    forall|i: int, j: int| 0 <= i < j < map.len() ==> (#[trigger] map[i]).0@ != (#[trigger] map[j]).0@
}

/// The graph handle kept for `name`, if any.
pub open spec fn graph_of(map: Seq<(String, i32)>, name: Seq<char>) -> Option<i32> {
    if has_key(map, name) {
        Some(map[choose|k: int| 0 <= k < map.len() && (#[trigger] map[k]).0@ == name].1)
    } else {
        None
    }
}

/// The model name that a module passes: `len` bytes at `ptr`, decoded as
/// UTF-8.
pub open spec fn spec_model_name(data: Seq<u8>, ptr: int, len: int) -> Option<Seq<char>> {
    if ptr + len <= data.len() && valid_utf8(data.subrange(ptr, ptr + len)) {
        Some(decode_utf8(data.subrange(ptr, ptr + len)))
    } else {
        None
    }
}

/// The four bytes of `v`, most significant first.
pub open spec fn be_bytes(v: i32) -> Seq<u8> {
    let u = (v as u32) as nat;
    seq![le_byte(u, 3), le_byte(u, 2), le_byte(u, 1), le_byte(u, 0)]
}

impl WasiEphemeralNn {
    /// Maps are keyed: no name occurs twice in either.
    pub open spec fn wf(&self) -> bool {
        keys_distinct(self.model_map@) && keys_distinct(self.raw_model_map@)
    }

    /// The graph handle that `load_by_name` gives for `name`: the one kept for
    /// it, or else the one built from its model.
    pub open spec fn spec_graph_id(&self, name: Seq<char>) -> i32 {
        match graph_of(self.model_map@, name) {
            Some(id) => id,
            None => 0,
        }
    }

    /// The host configured by a model string such as
    /// `default:GGML:AUTO:llama-2-7b-chat-q5_k_m.gguf`: it knows one model, by
    /// its name, to be loaded from its path.
    pub fn new(model_path: &str) -> (r: Self)
        requires
            spec_model_spec(model_path@) is Ok,
        ensures
            r.wf(),
            r.model_path@ == model_path@,
            r.model_map@.len() == 0,
            r.nn_graph@.len() == 0,
            r.nn_context@.len() == 0,
            r.raw_model_map@.len() == 1,
            ({
                let (name, device, path) = spec_model_spec(model_path@)->Ok_0;
                &&& r.raw_model_map@[0].0@ == name
                &&& r.raw_model_map@[0].1.data@ == preload_prefix() + encode_utf8(path)
                &&& r.raw_model_map@[0].1.backend == Backend::GGML
                &&& r.raw_model_map@[0].1.device == device
            }),
    {
        let spec = match parse_model_spec(model_path) {
            Ok(m) => m,
            Err(_) => {
                proof {
                    assert(false);
                }
                return WasiEphemeralNn {
                    model_path: model_path.to_owned(),
                    model_map: Vec::new(),
                    raw_model_map: Vec::new(),
                    nn_graph: Vec::new(),
                    nn_context: Vec::new(),
                };
            },
        };
        let mut data: Vec<u8> = Vec::new();
        data.push(112u8);
        data.push(114u8);
        data.push(101u8);
        data.push(108u8);
        data.push(111u8);
        data.push(97u8);
        data.push(100u8);
        data.push(58u8);
        let bytes = spec.path.as_str().as_bytes();
        let mut i: usize = 0;
        while i < bytes.len()
            invariant
                i <= bytes@.len(),
                data@ == preload_prefix() + bytes@.take(i as int),
            decreases bytes@.len() - i,
        {
            data.push(bytes[i]);
            i = i + 1;
            proof {
                assert(bytes@.take(i as int) =~= bytes@.take(i - 1).push(bytes@[i - 1]));
            }
        }
        proof {
            assert(bytes@.take(i as int) =~= bytes@);
        }
        let model = RawModel { data, backend: Backend::GGML, device: spec.device };
        let mut raw_model_map: Vec<(String, RawModel)> = Vec::new();
        raw_model_map.push((spec.name, model));
        WasiEphemeralNn {
            model_path: model_path.to_owned(),
            model_map: Vec::new(),
            raw_model_map,
            nn_graph: Vec::new(),
            nn_context: Vec::new(),
        }
    }

    /// Builds a graph from the model called `model_name` and gives its handle:
    /// the backend keeps one graph, handle 0.
    pub fn build_model(&self, model_name: &String) -> (id: i32)
        requires
            has_key(self.raw_model_map@, model_name@),
        ensures
            id == 0,
    {
        0
    }

    /// `init_execution_context` for a graph handle and the place of the new
    /// context: no context is made yet, and it answers 0.
    pub fn init_execution_context(&self, graph_handle: u32, ctx_ptr: u32) -> (r: i32)
        ensures
            r == 0,
    {
        0
    }

    /// `compute` on a context: nothing is run yet, and it answers 0.
    pub fn compute(&self, ctx: i32) -> (r: i32)
        ensures
            r == 0,
    {
        0
    }

    /// `get_output` of a context: nothing is written yet, and it answers 0.
    pub fn get_output(&self, ctx_ptr: u32, index: u32, out_buf_ptr: u32, out_buf_len: u32, out_size: u32) -> (r: i32)
        ensures
            r == 0,
    {
        0
    }

    /// `set_input` of a context: nothing is kept yet, and it answers 0.
    pub fn set_input(&self, ctx_ptr: u32, index: u32, tensor: u32) -> (r: i32)
        ensures
            r == 0,
    {
        0
    }

    /// The handle of the graph kept for `name`, if any.
    fn find_graph(&self, name: &String) -> (r: Option<i32>)
        requires
            self.wf(),
        ensures
            r == graph_of(self.model_map@, name@),
    {
        let mut k: usize = 0;
        while k < self.model_map.len()
            invariant
                self.wf(),
                k <= self.model_map@.len(),
                forall|j: int| 0 <= j < k ==> (#[trigger] self.model_map@[j]).0@ != name@,
            decreases self.model_map@.len() - k,
        {
            if self.model_map[k].0 == *name {
                proof {
                    let map = self.model_map@;
                    assert(has_key(map, name@));
                    let c = choose|c: int| 0 <= c < map.len() && (#[trigger] map[c]).0@ == name@;
                    assert(map[k as int].0@ == name@);
                    assert(c == k) by {
                        if c < k {
                            assert(map[c].0@ != map[k as int].0@);
                        }
                        if c > k {
                            assert(map[k as int].0@ != map[c].0@);
                        }
                    }
                }
                return Some(self.model_map[k].1);
            }
            k = k + 1;
        }
        None
    }

    /// `load_by_name`: reads the model name that a module passes at `name_ptr`
    /// (`name_len` bytes), and puts the handle of its graph, most significant
    /// byte first, at `graph_id_ptr`; the handle is the one kept for the
    /// name, or else the one built from its model. It answers 0; a handle that
    /// does not fit in memory is an error, and nothing is written.
    pub fn load_by_name(&self, memory: &mut InternalMemoryInst, name_ptr: u32, name_len: u32, graph_id_ptr: u32) -> (r: Result<i32, RuntimeError>)
        requires
            self.wf(),
            spec_model_name(old(memory).data@, name_ptr as int, name_len as int) matches Some(name) && (
            has_key(self.model_map@, name) || has_key(self.raw_model_map@, name)),
        ensures
            final(memory).max == old(memory).max,
            ({
                let name = spec_model_name(old(memory).data@, name_ptr as int, name_len as int)->Some_0;
                if graph_id_ptr + 4 <= old(memory).data@.len() {
                    r == Ok::<i32, RuntimeError>(0) && final(memory).data@ == copied(
                        old(memory).data@,
                        graph_id_ptr as int,
                        be_bytes(self.spec_graph_id(name)),
                    )
                } else {
                    r == Err::<i32, RuntimeError>(RuntimeError::OutOfBoundsMemoryAccess) && final(memory).data@
                        == old(memory).data@
                }
            }),
    {
        let name = match read_model_name(memory, name_ptr, name_len) {
            Some(n) => n,
            None => {
                proof {
                    assert(false);
                }
                return Err(RuntimeError::OutOfBoundsMemoryAccess);
            },
        };
        let graph_id = match self.find_graph(&name) {
            Some(id) => id,
            None => self.build_model(&name),
        };
        let u = #[verifier::truncate] (graph_id as u32);
        let bytes: [u8; 4] = [(u / 0x100_0000) as u8, (u / 0x1_0000 % 256) as u8, (u / 0x100 % 256) as u8, (u % 256) as u8];
        proof {
            reveal_with_fuel(pow256, 4);
            assert(pow256(3) == 0x100_0000);
            let v = u as nat;
            assert(bytes@[0] == le_byte(v, 3));
            assert(bytes@[1] == le_byte(v, 2));
            assert(bytes@[2] == le_byte(v, 1));
            assert(pow256(0) == 1 && v / 1 == v);
            assert(bytes@[3] == le_byte(v, 0));
            assert(bytes@ =~= be_bytes(graph_id));
        }
        match write_bytes(memory, graph_id_ptr as u64, &bytes) {
            Ok(()) => Ok(0),
            Err(e) => Err(e),
        }
    }
}

/// The model name that a module passes: `len` bytes at `ptr` of its memory,
/// when they are there and are UTF-8.
pub fn read_model_name(memory: &InternalMemoryInst, ptr: u32, len: u32) -> (r: Option<String>)
    ensures
        match r {
            Some(name) => spec_model_name(memory.data@, ptr as int, len as int) == Some(name@),
            None => spec_model_name(memory.data@, ptr as int, len as int) is None,
        },
{
    let n = memory.data.len();
    if ptr as u64 + len as u64 > n as u64 {
        return None;
    }
    let (ptr, len) = (ptr as usize, len as usize);
    let mut bytes: Vec<u8> = Vec::new();
    let mut i: usize = 0;
    while i < len
        invariant
            n == memory.data@.len(),
            ptr + len <= memory.data@.len(),
            i <= len,
            bytes@ == memory.data@.subrange(ptr as int, ptr + i),
        decreases len - i,
    {
        bytes.push(memory.data[ptr + i]);
        i = i + 1;
        proof {
            assert(bytes@ =~= memory.data@.subrange(ptr as int, ptr + i));
        }
    }
    match string_from_utf8(bytes) {
        Ok(name) => Some(name),
        Err(_) => None,
    }
}

} // verus!
