//! Model catalogue.
//!
//! The decoder consumes a model directory chosen from a small set of
//! search directories.  This module verifies the catalogue's rules: what
//! directory layout counts as a model, how a model's language is read
//! off its folder name, how search directories are collected, and how
//! the installed models are deduplicated and ordered.  Directory
//! scanning itself is the unverified shell's job; it hands the catalogue
//! one probe record per directory entry.

use vstd::prelude::*;
use vstd::string::StringSliceAdditionalSpecFns;
use vstd::utf8::encode_utf8;

verus! {

/// ASCII lowercasing of one byte; other bytes pass through unchanged.
pub open spec fn lower_byte(b: u8) -> u8 {
    if 65 <= b && b <= 90 {
        (b + 32) as u8
    } else {
        b
    }
}

/// ASCII lowercasing of a byte string.
pub open spec fn lower_bytes(s: Seq<u8>) -> Seq<u8> {
    s.map_values(|b: u8| lower_byte(b))
}

/// ASCII-lowercases a name's bytes; matching against the language
/// patterns below is ASCII case-insensitive.
pub fn to_lower_bytes(s: &str) -> (r: Vec<u8>)
    ensures
        r@ == lower_bytes(s.spec_bytes()),
{
    let bytes = s.as_bytes();
    let mut out: Vec<u8> = Vec::new();
    let mut k: usize = 0;
    while k < bytes.len()
        invariant
            bytes@ == s.spec_bytes(),
            0 <= k <= bytes@.len(),
            out@.len() == k,
            forall|i: int| 0 <= i < k ==> out@[i] == lower_byte(bytes@[i]),
        decreases bytes@.len() - k,
    {
        let b = bytes[k];
        if 65 <= b && b <= 90 {
            out.push(b + 32);
        } else {
            out.push(b);
        }
        k += 1;
    }
    proof {
        assert(out@ =~= lower_bytes(s.spec_bytes()));
    }
    out
}

/// The needle occurs in the haystack starting at position `i`.
pub open spec fn match_at(hay: Seq<u8>, needle: Seq<u8>, i: int) -> bool {
    &&& 0 <= i
    &&& i + needle.len() <= hay.len()
    &&& hay.subrange(i, i + needle.len()) == needle
}

/// The needle occurs somewhere in the haystack.
pub open spec fn contains_bytes(hay: Seq<u8>, needle: Seq<u8>) -> bool {
    exists|i: int| match_at(hay, needle, i)
}

/// The haystack ends with the needle.
pub open spec fn ends_with_bytes(hay: Seq<u8>, needle: Seq<u8>) -> bool {
    &&& needle.len() <= hay.len()
    &&& hay.subrange(hay.len() - needle.len(), hay.len() as int) == needle
}

fn match_at_exec(hay: &Vec<u8>, needle: &[u8], i: usize) -> (r: bool)
    requires
        i + needle@.len() <= hay@.len(),
    ensures
        r == match_at(hay@, needle@, i as int),
{
    let hl = hay.len();
    let n = needle.len();
    let mut j: usize = 0;
    while j < n
        invariant
            hl == hay@.len(),
            n == needle@.len(),
            i + n <= hay@.len(),
            0 <= j <= n,
            forall|k: int| 0 <= k < j ==> hay@[i + k] == needle@[k],
        decreases n - j,
    {
        if hay[i + j] != needle[j] {
            proof {
                assert(hay@.subrange(i as int, i + needle@.len())[j as int] != needle@[j as int]);
            }
            return false;
        }
        j += 1;
    }
    proof {
        assert(hay@.subrange(i as int, i + needle@.len()) =~= needle@);
    }
    true
}

/// Whether the needle occurs in the haystack.
pub fn contains_bytes_exec(hay: &Vec<u8>, needle: &[u8]) -> (r: bool)
    ensures
        r == contains_bytes(hay@, needle@),
{
    if needle.len() > hay.len() {
        proof {
            assert(forall|i: int| !match_at(hay@, needle@, i));
        }
        return false;
    }
    let bound = hay.len() - needle.len();
    let mut i: usize = 0;
    loop
        invariant
            needle@.len() <= hay@.len(),
            bound == hay@.len() - needle@.len(),
            0 <= i <= bound,
            forall|k: int| 0 <= k < i ==> !match_at(hay@, needle@, k),
        decreases bound - i,
    {
        if match_at_exec(hay, needle, i) {
            return true;
        }
        if i == bound {
            proof {
                assert(forall|k: int| match_at(hay@, needle@, k) ==> 0 <= k <= bound);
            }
            return false;
        }
        i += 1;
    }
}

/// Whether the haystack ends with the needle.
pub fn ends_with_bytes_exec(hay: &Vec<u8>, needle: &[u8]) -> (r: bool)
    ensures
        r == ends_with_bytes(hay@, needle@),
{
    if needle.len() > hay.len() {
        return false;
    }
    match_at_exec(hay, needle, hay.len() - needle.len())
}

/// Byte-wise lexicographic order on byte strings — the order in which
/// the installed models are listed, by name.
pub open spec fn bytes_le(a: Seq<u8>, b: Seq<u8>) -> bool
    decreases a.len(),
{
    if a.len() == 0 {
        true
    } else if b.len() == 0 {
        false
    } else if a[0] < b[0] {
        true
    } else if a[0] > b[0] {
        false
    } else {
        bytes_le(a.skip(1), b.skip(1))
    }
}

/// The order is total.
pub proof fn lemma_bytes_le_total(a: Seq<u8>, b: Seq<u8>)
    ensures
        bytes_le(a, b) || bytes_le(b, a),
    decreases a.len(),
{
    if a.len() == 0 {
    } else if b.len() == 0 {
    } else if a[0] == b[0] {
        lemma_bytes_le_total(a.skip(1), b.skip(1));
    }
}

/// The order is transitive.
pub proof fn lemma_bytes_le_trans(a: Seq<u8>, b: Seq<u8>, c: Seq<u8>)
    requires
        bytes_le(a, b),
        bytes_le(b, c),
    ensures
        bytes_le(a, c),
    decreases a.len(),
{
    if a.len() == 0 {
    } else {
        if a[0] == b[0] && b[0] == c[0] {
            lemma_bytes_le_trans(a.skip(1), b.skip(1), c.skip(1));
        }
    }
}

/// Compares two names in the listing order.
pub fn str_le(a: &str, b: &str) -> (r: bool)
    ensures
        r == bytes_le(a.spec_bytes(), b.spec_bytes()),
{
    let ab = a.as_bytes();
    let bb = b.as_bytes();
    proof {
        assert(ab@.skip(0) =~= ab@);
        assert(bb@.skip(0) =~= bb@);
    }
    let mut i: usize = 0;
    loop
        invariant
            ab@ == a.spec_bytes(),
            bb@ == b.spec_bytes(),
            0 <= i <= ab@.len(),
            i <= bb@.len(),
            bytes_le(ab@, bb@) == bytes_le(ab@.skip(i as int), bb@.skip(i as int)),
        decreases ab@.len() - i,
    {
        if i == ab.len() {
            return true;
        }
        if i == bb.len() {
            proof {
                assert(ab@.skip(i as int).len() > 0);
            }
            return false;
        }
        let x = ab[i];
        let y = bb[i];
        proof {
            assert(ab@.skip(i as int)[0] == ab@[i as int]);
            assert(bb@.skip(i as int)[0] == bb@[i as int]);
        }
        if x < y {
            return true;
        }
        if x > y {
            return false;
        }
        proof {
            assert(ab@.skip(i as int).skip(1) =~= ab@.skip(i as int + 1));
            assert(bb@.skip(i as int).skip(1) =~= bb@.skip(i as int + 1));
        }
        i += 1;
    }
}

/// What a filesystem probe of one directory entry observed, everything
/// the model-layout rule reads.
#[derive(Debug, Clone, Copy, PartialEq, Eq, Structural)]
pub struct DirProbe {
    /// The entry is a directory.
    pub is_dir: bool,
    /// It has an `am` subdirectory.
    pub has_am_dir: bool,
    /// It has an `am.mdl` entry.
    pub has_am_mdl: bool,
    /// It has a `conf` subdirectory.
    pub has_conf_dir: bool,
    /// It has a `graph` subdirectory.
    pub has_graph_dir: bool,
    /// It has an `mfcc.conf` entry.
    pub has_mfcc_conf: bool,
    /// It has a `conf/mfcc.conf` entry.
    pub has_conf_mfcc_conf: bool,
}

impl DirProbe {
    /// The probe of a path that does not exist: nothing observed.
    pub fn absent() -> (r: DirProbe)
        ensures
            r == (DirProbe {
                is_dir: false,
                has_am_dir: false,
                has_am_mdl: false,
                has_conf_dir: false,
                has_graph_dir: false,
                has_mfcc_conf: false,
                has_conf_mfcc_conf: false,
            }),
    {
        DirProbe {
            is_dir: false,
            has_am_dir: false,
            has_am_mdl: false,
            has_conf_dir: false,
            has_graph_dir: false,
            has_mfcc_conf: false,
            has_conf_mfcc_conf: false,
        }
    }
}

/// The model-layout rule: a directory is a model when it has acoustic
/// data beside a graph, a configuration beside a graph, or a feature
/// configuration file.
pub open spec fn spec_valid_model(p: DirProbe) -> bool {
    &&& p.is_dir
    &&& {
        let has_am = p.has_am_dir || p.has_am_mdl;
        let has_model_conf = p.has_mfcc_conf || p.has_conf_mfcc_conf;
        (has_am && p.has_graph_dir) || (p.has_conf_dir && p.has_graph_dir) || has_model_conf
    }
}

/// Whether a probed directory entry holds a usable model.
pub fn is_valid_vosk_model(probe: &DirProbe) -> (r: bool)
    ensures
        r == spec_valid_model(*probe),
{
    if !probe.is_dir {
        return false;
    }
    let has_am = probe.has_am_dir || probe.has_am_mdl;
    let has_conf = probe.has_conf_dir;
    let has_graph = probe.has_graph_dir;
    let has_model_conf = probe.has_mfcc_conf || probe.has_conf_mfcc_conf;
    (has_am && has_graph) || (has_conf && has_graph) || has_model_conf
}

/// The language read off a lowercased model folder name: the first
/// matching pattern family decides, more specific families first.
pub open spec fn spec_detect_language(lower: Seq<u8>) -> Seq<char> {
    if contains_bytes(lower, "-en-us".spec_bytes()) || contains_bytes(
        lower,
        "_en_us".spec_bytes(),
    ) {
        "English (US)"@
    } else if contains_bytes(lower, "-en-in".spec_bytes()) || contains_bytes(
        lower,
        "_en_in".spec_bytes(),
    ) {
        "English (India)"@
    } else if contains_bytes(lower, "-en-".spec_bytes()) || contains_bytes(
        lower,
        "_en_".spec_bytes(),
    ) || ends_with_bytes(lower, "-en".spec_bytes()) {
        "English"@
    } else if contains_bytes(lower, "-de-".spec_bytes()) || contains_bytes(
        lower,
        "_de_".spec_bytes(),
    ) || ends_with_bytes(lower, "-de".spec_bytes()) {
        "German"@
    } else if contains_bytes(lower, "-fr-".spec_bytes()) || contains_bytes(
        lower,
        "_fr_".spec_bytes(),
    ) || ends_with_bytes(lower, "-fr".spec_bytes()) {
        "French"@
    } else if contains_bytes(lower, "-es-".spec_bytes()) || contains_bytes(
        lower,
        "_es_".spec_bytes(),
    ) || ends_with_bytes(lower, "-es".spec_bytes()) {
        "Spanish"@
    } else if contains_bytes(lower, "-cn-".spec_bytes()) || contains_bytes(
        lower,
        "-zh-".spec_bytes(),
    ) || contains_bytes(lower, "_cn_".spec_bytes()) || contains_bytes(
        lower,
        "_zh_".spec_bytes(),
    ) {
        "Chinese"@
    } else if contains_bytes(lower, "-ru-".spec_bytes()) || contains_bytes(
        lower,
        "_ru_".spec_bytes(),
    ) || ends_with_bytes(lower, "-ru".spec_bytes()) {
        "Russian"@
    } else if contains_bytes(lower, "-ja-".spec_bytes()) || contains_bytes(
        lower,
        "-jp-".spec_bytes(),
    ) || contains_bytes(lower, "_ja_".spec_bytes()) || contains_bytes(
        lower,
        "_jp_".spec_bytes(),
    ) {
        "Japanese"@
    } else {
        "Unknown"@
    }
}

/// Detects a model's language from its folder name, matching the
/// language tag patterns ASCII case-insensitively.
pub fn detect_language(name: &str) -> (r: String)
    ensures
        r@ == spec_detect_language(lower_bytes(name.spec_bytes())),
{
    let lower = to_lower_bytes(name);
    if contains_bytes_exec(&lower, "-en-us".as_bytes()) || contains_bytes_exec(
        &lower,
        "_en_us".as_bytes(),
    ) {
        "English (US)".to_owned()
    } else if contains_bytes_exec(&lower, "-en-in".as_bytes()) || contains_bytes_exec(
        &lower,
        "_en_in".as_bytes(),
    ) {
        "English (India)".to_owned()
    } else if contains_bytes_exec(&lower, "-en-".as_bytes()) || contains_bytes_exec(
        &lower,
        "_en_".as_bytes(),
    ) || ends_with_bytes_exec(&lower, "-en".as_bytes()) {
        "English".to_owned()
    } else if contains_bytes_exec(&lower, "-de-".as_bytes()) || contains_bytes_exec(
        &lower,
        "_de_".as_bytes(),
    ) || ends_with_bytes_exec(&lower, "-de".as_bytes()) {
        "German".to_owned()
    } else if contains_bytes_exec(&lower, "-fr-".as_bytes()) || contains_bytes_exec(
        &lower,
        "_fr_".as_bytes(),
    ) || ends_with_bytes_exec(&lower, "-fr".as_bytes()) {
        "French".to_owned()
    } else if contains_bytes_exec(&lower, "-es-".as_bytes()) || contains_bytes_exec(
        &lower,
        "_es_".as_bytes(),
    ) || ends_with_bytes_exec(&lower, "-es".as_bytes()) {
        "Spanish".to_owned()
    } else if contains_bytes_exec(&lower, "-cn-".as_bytes()) || contains_bytes_exec(
        &lower,
        "-zh-".as_bytes(),
    ) || contains_bytes_exec(&lower, "_cn_".as_bytes()) || contains_bytes_exec(
        &lower,
        "_zh_".as_bytes(),
    ) {
        "Chinese".to_owned()
    } else if contains_bytes_exec(&lower, "-ru-".as_bytes()) || contains_bytes_exec(
        &lower,
        "_ru_".as_bytes(),
    ) || ends_with_bytes_exec(&lower, "-ru".as_bytes()) {
        "Russian".to_owned()
    } else if contains_bytes_exec(&lower, "-ja-".as_bytes()) || contains_bytes_exec(
        &lower,
        "-jp-".as_bytes(),
    ) || contains_bytes_exec(&lower, "_ja_".as_bytes()) || contains_bytes_exec(
        &lower,
        "_jp_".as_bytes(),
    ) {
        "Japanese".to_owned()
    } else {
        "Unknown".to_owned()
    }
}

/// Directory size in whole megabytes, as the catalogue reports it.
pub fn bytes_to_mb(bytes: u64) -> (r: u64)
    ensures
        r == bytes as int / (1048576 as int),
{
    bytes / (1024 * 1024)
}

/// Information about one model in the catalogue.
#[derive(Debug, Clone)]
pub struct ModelInfo {
    pub name: String,
    pub path: String,
    pub language: String,
    pub size_mb: u64,
}

/// Ghost image of a catalogue entry: the views of its fields.
pub struct ModelInfoView {
    pub name: Seq<char>,
    pub path: Seq<char>,
    pub language: Seq<char>,
    pub size_mb: u64,
}

impl View for ModelInfo {
    type V = ModelInfoView;

    open spec fn view(&self) -> ModelInfoView {
        ModelInfoView {
            name: self.name@,
            path: self.path@,
            language: self.language@,
            size_mb: self.size_mb,
        }
    }
}

impl DeepView for ModelInfo {
    type V = ModelInfoView;

    open spec fn deep_view(&self) -> ModelInfoView {
        self.view()
    }
}

fn clone_info(m: &ModelInfo) -> (r: ModelInfo)
    ensures
        r@ == m@,
{
    ModelInfo {
        name: m.name.clone(),
        path: m.path.clone(),
        language: m.language.clone(),
        size_mb: m.size_mb,
    }
}

/// One directory entry as the shell scanned it: its file name, its full
/// path, what the layout probe observed, and its size in megabytes.
#[derive(Debug, Clone)]
pub struct ScannedEntry {
    pub name: String,
    pub path: String,
    pub probe: DirProbe,
    pub size_mb: u64,
}

/// The catalogue entry a valid scanned entry contributes.
pub open spec fn info_of_entry(e: ScannedEntry) -> ModelInfoView {
    ModelInfoView {
        name: e.name@,
        path: e.path@,
        language: spec_detect_language(lower_bytes(encode_utf8(e.name@))),
        size_mb: e.size_mb,
    }
}

/// Whether the catalogue already lists a model of this name.
pub open spec fn contains_name(infos: Seq<ModelInfoView>, name: Seq<char>) -> bool {
    exists|i: int| 0 <= i < infos.len() && infos[i].name == name
}

/// The installed models in scan order: each entry with a valid model
/// layout contributes one catalogue entry, unless an earlier entry of
/// the same name already did (the same model may sit in several search
/// directories).
pub open spec fn spec_installed(entries: Seq<ScannedEntry>) -> Seq<ModelInfoView>
    decreases entries.len(),
{
    if entries.len() == 0 {
        Seq::empty()
    } else {
        let rest = spec_installed(entries.drop_last());
        let e = entries.last();
        if spec_valid_model(e.probe) && !contains_name(rest, e.name@) {
            rest.push(info_of_entry(e))
        } else {
            rest
        }
    }
}

/// The catalogue's listing order: names ascending.
pub open spec fn sorted_by_name(infos: Seq<ModelInfoView>) -> bool {
    forall|i: int, j: int|
        #![trigger infos[i], infos[j]]
        0 <= i < j < infos.len() ==> bytes_le(encode_utf8(infos[i].name), encode_utf8(infos[j].name))
}

fn has_model_named(models: &Vec<ModelInfo>, name: &String) -> (r: bool)
    ensures
        r == contains_name(models.deep_view(), name@),
{
    let mut k: usize = 0;
    while k < models.len()
        invariant
            0 <= k <= models@.len(),
            forall|i: int| 0 <= i < k ==> models.deep_view()[i].name != name@,
        decreases models@.len() - k,
    {
        if models[k].name == *name {
            proof {
                assert(models.deep_view()[k as int].name == name@);
            }
            return true;
        }
        k += 1;
    }
    false
}

/// Inserts one entry at its place in a name-sorted catalogue.
fn insert_sorted(out: &mut Vec<ModelInfo>, item: ModelInfo)
    requires
        sorted_by_name(old(out).deep_view()),
    ensures
        sorted_by_name(final(out).deep_view()),
        final(out).deep_view().to_multiset() == old(out).deep_view().to_multiset().insert(item@),
{
    let ghost dv = out.deep_view();
    let ghost iv = item@;
    let mut p: usize = 0;
    loop
        invariant
            out == old(out),
            dv == out.deep_view(),
            iv == item@,
            0 <= p <= dv.len(),
            forall|k: int|
                0 <= k < p ==> bytes_le(encode_utf8(dv[k].name), encode_utf8(iv.name)),
        ensures
            0 <= p <= dv.len(),
            forall|k: int|
                0 <= k < p ==> bytes_le(encode_utf8(dv[k].name), encode_utf8(iv.name)),
            p < dv.len() ==> !bytes_le(encode_utf8(dv[p as int].name), encode_utf8(iv.name)),
        decreases dv.len() - p,
    {
        if p == out.len() {
            break ;
        }
        if !str_le(out[p].name.as_str(), item.name.as_str()) {
            break ;
        }
        p += 1;
    }
    proof {
        if p < dv.len() {
            lemma_bytes_le_total(encode_utf8(dv[p as int].name), encode_utf8(iv.name));
        }
        assert forall|k: int| p <= k < dv.len() implies bytes_le(
            encode_utf8(iv.name),
            encode_utf8(dv[k].name),
        ) by {
            if k > p {
                lemma_bytes_le_trans(
                    encode_utf8(iv.name),
                    encode_utf8(dv[p as int].name),
                    encode_utf8(dv[k].name),
                );
            }
        }
    }
    out.insert(p, item);
    proof {
        broadcast use vstd::seq_lib::to_multiset_insert;

        dv.insert_ensures(p as int, iv);
        assert(out.deep_view() =~= dv.insert(p as int, iv));
        let ndv = dv.insert(p as int, iv);
        assert forall|i: int, j: int|
            #![trigger ndv[i], ndv[j]]
            0 <= i < j < ndv.len() implies bytes_le(
            encode_utf8(ndv[i].name),
            encode_utf8(ndv[j].name),
        ) by {
        }
        assert(sorted_by_name(out.deep_view()));
        assert(out.deep_view().to_multiset() == dv.to_multiset().insert(iv));
    }
}

/// Sorts a catalogue by name.
fn sort_models(v: Vec<ModelInfo>) -> (r: Vec<ModelInfo>)
    ensures
        sorted_by_name(r.deep_view()),
        r.deep_view().to_multiset() == v.deep_view().to_multiset(),
{
    let mut out: Vec<ModelInfo> = Vec::new();
    let mut k: usize = 0;
    proof {
        broadcast use vstd::seq_lib::group_to_multiset_ensures;

        assert(v.deep_view().take(0) =~= Seq::<ModelInfoView>::empty());
        assert(out.deep_view() =~= Seq::<ModelInfoView>::empty());
    }
    while k < v.len()
        invariant
            0 <= k <= v@.len(),
            v@.len() == v.deep_view().len(),
            sorted_by_name(out.deep_view()),
            out.deep_view().to_multiset() == v.deep_view().take(k as int).to_multiset(),
        decreases v@.len() - k,
    {
        let item = clone_info(&v[k]);
        proof {
            broadcast use vstd::seq_lib::group_to_multiset_ensures;

            assert(v.deep_view().take(k + 1) =~= v.deep_view().take(k as int).push(
                v.deep_view()[k as int],
            ));
        }
        insert_sorted(&mut out, item);
        k += 1;
    }
    proof {
        assert(v.deep_view().take(v@.len() as int) =~= v.deep_view());
    }
    out
}

/// The model catalogue: a primary models directory and the additional
/// search directories the shell discovered.
pub struct ModelManager {
    pub models_dir: String,
    pub additional_dirs: Vec<String>,
}

impl ModelManager {
    /// A catalogue that searches the given directory alone.
    pub fn new_isolated(models_dir: String) -> (r: ModelManager)
        ensures
            r.models_dir == models_dir,
            r.additional_dirs@.len() == 0,
    {
        ModelManager { models_dir, additional_dirs: Vec::new() }
    }

    /// Offers one more search directory, as the shell probed it: it is
    /// kept only if it exists, differs from the primary directory, and
    /// was not offered before.
    pub fn add_search_dir(&mut self, dir: String, dir_exists: bool)
        ensures
            final(self).models_dir == old(self).models_dir,
            (dir_exists && dir@ != old(self).models_dir@ && !old(
                self,
            ).additional_dirs.deep_view().contains(dir@)) ==> final(self).additional_dirs@ == old(
                self,
            ).additional_dirs@.push(dir),
            !(dir_exists && dir@ != old(self).models_dir@ && !old(
                self,
            ).additional_dirs.deep_view().contains(dir@)) ==> *final(self) == *old(self),
    {
        if !dir_exists {
            return ;
        }
        if dir == self.models_dir {
            return ;
        }
        let mut k: usize = 0;
        while k < self.additional_dirs.len()
            invariant
                0 <= k <= self.additional_dirs@.len(),
                forall|i: int| 0 <= i < k ==> self.additional_dirs.deep_view()[i] != dir@,
            decreases self.additional_dirs@.len() - k,
        {
            if self.additional_dirs[k] == dir {
                proof {
                    assert(self.additional_dirs.deep_view()[k as int] == dir@);
                }
                return ;
            }
            k += 1;
        }
        self.additional_dirs.push(dir);
    }

    /// The primary models directory.
    pub fn get_models_dir(&self) -> (r: &String)
        ensures
            r == self.models_dir,
    {
        &self.models_dir
    }

    /// Every directory searched for models: the primary directory first,
    /// then the additional ones in the order they were kept.
    pub fn get_all_model_dirs(&self) -> (r: Vec<String>)
        ensures
            r@.len() == 1 + self.additional_dirs@.len(),
            r.deep_view()[0] == self.models_dir@,
            forall|i: int|
                1 <= i < r@.len() ==> r.deep_view()[i] == self.additional_dirs.deep_view()[i - 1],
    {
        let mut out: Vec<String> = Vec::new();
        out.push(self.models_dir.clone());
        let mut k: usize = 0;
        while k < self.additional_dirs.len()
            invariant
                0 <= k <= self.additional_dirs@.len(),
                out@.len() == 1 + k,
                out.deep_view()[0] == self.models_dir@,
                forall|i: int|
                    1 <= i < out@.len() ==> out.deep_view()[i] == self.additional_dirs.deep_view()[i
                        - 1],
            decreases self.additional_dirs@.len() - k,
        {
            let ghost pre = out.deep_view();
            out.push(self.additional_dirs[k].clone());
            proof {
                assert forall|i: int| 0 <= i < pre.len() implies out.deep_view()[i] == pre[i] by {
                }
                assert(out.deep_view()[out@.len() - 1] == self.additional_dirs.deep_view()[
                    k as int]);
                assert forall|i: int| 1 <= i < out@.len() implies out.deep_view()[i]
                    == self.additional_dirs.deep_view()[i - 1] by {
                    if i < pre.len() {
                        assert(out.deep_view()[i] == pre[i]);
                    } else {
                        assert(i == out@.len() - 1);
                    }
                }
            }
            k += 1;
        }
        out
    }

    /// The two catalogue suggestions for downloadable models, placed
    /// under the primary models directory.
    pub fn list_available_models(&self) -> (r: Vec<ModelInfo>)
        ensures
            r@.len() == 2,
            r.deep_view()[0].name == "vosk-model-small-en-us-0.15"@,
            r.deep_view()[0].path == self.models_dir@ + "/"@ + "vosk-model-small-en-us-0.15"@,
            r.deep_view()[0].language == "English (US)"@,
            r.deep_view()[0].size_mb == 40,
            r.deep_view()[1].name == "vosk-model-en-us-0.22"@,
            r.deep_view()[1].path == self.models_dir@ + "/"@ + "vosk-model-en-us-0.22"@,
            r.deep_view()[1].language == "English (US)"@,
            r.deep_view()[1].size_mb == 1800,
    {
        let mut out: Vec<ModelInfo> = Vec::new();
        out.push(
            ModelInfo {
                name: "vosk-model-small-en-us-0.15".to_owned(),
                path: join_path(&self.models_dir, "vosk-model-small-en-us-0.15"),
                language: "English (US)".to_owned(),
                size_mb: 40,
            },
        );
        out.push(
            ModelInfo {
                name: "vosk-model-en-us-0.22".to_owned(),
                path: join_path(&self.models_dir, "vosk-model-en-us-0.22"),
                language: "English (US)".to_owned(),
                size_mb: 1800,
            },
        );
        out
    }

    /// Builds the installed-model catalogue from the scanned entries of
    /// every search directory, in scan order: valid layouts only, first
    /// entry of each name wins, listed in name order.
    pub fn list_installed_models(&self, entries: Vec<ScannedEntry>) -> (r: Vec<ModelInfo>)
        ensures
            sorted_by_name(r.deep_view()),
            r.deep_view().to_multiset() == spec_installed(entries@).to_multiset(),
    {
        let mut found: Vec<ModelInfo> = Vec::new();
        let mut k: usize = 0;
        proof {
            assert(entries@.take(0) =~= Seq::<ScannedEntry>::empty());
            assert(found.deep_view() =~= spec_installed(entries@.take(0)));
        }
        while k < entries.len()
            invariant
                0 <= k <= entries@.len(),
                found.deep_view() == spec_installed(entries@.take(k as int)),
            decreases entries@.len() - k,
        {
            let ghost pre = found.deep_view();
            proof {
                assert(entries@.take(k + 1).drop_last() =~= entries@.take(k as int));
                assert(entries@.take(k + 1).last() == entries@[k as int]);
            }
            let valid = is_valid_vosk_model(&entries[k].probe);
            if valid {
                let seen = has_model_named(&found, &entries[k].name);
                if !seen {
                    let language = detect_language(entries[k].name.as_str());
                    let name = entries[k].name.clone();
                    let path = entries[k].path.clone();
                    let size_mb = entries[k].size_mb;
                    found.push(ModelInfo { name, path, language, size_mb });
                    proof {
                        assert(found.deep_view() =~= pre.push(info_of_entry(entries@[k as int])));
                    }
                }
            }
            k += 1;
        }
        proof {
            assert(entries@.take(entries@.len() as int) =~= entries@);
        }
        sort_models(found)
    }

    /// The default model: the first of the installed catalogue, which by
    /// the listing order is the installed model of least name; `None`
    /// exactly when nothing is installed.
    pub fn get_default_model(&self, entries: Vec<ScannedEntry>) -> (r: Option<ModelInfo>)
        ensures
            (r is Some) == (spec_installed(entries@).len() > 0),
            r matches Some(m) ==> spec_installed(entries@).to_multiset().contains(m@) && (forall|
                x: ModelInfoView,
            |
                spec_installed(entries@).to_multiset().contains(x) ==> bytes_le(
                    encode_utf8(m@.name),
                    encode_utf8(x.name),
                )),
    {
        let installed = self.list_installed_models(entries);
        proof {
            broadcast use vstd::seq_lib::group_to_multiset_ensures;

        }
        if installed.len() == 0 {
            proof {
                assert(installed.deep_view().to_multiset().len() == 0);
            }
            return None;
        }
        let first = clone_info(&installed[0]);
        proof {
            broadcast use vstd::seq_lib::group_to_multiset_ensures;

            let dv = installed.deep_view();
            assert(dv.len() > 0);
            assert(spec_installed(entries@).to_multiset().len() == dv.to_multiset().len());
            assert(spec_installed(entries@).len() > 0);
            assert(dv.contains(dv[0]));
            assert forall|x: ModelInfoView|
                spec_installed(entries@).to_multiset().contains(x) implies bytes_le(
                encode_utf8(first@.name),
                encode_utf8(x.name),
            ) by {
                assert(dv.to_multiset().contains(x));
                assert(dv.contains(x));
                let i = choose|i: int| 0 <= i < dv.len() && dv[i] == x;
                if i == 0 {
                    lemma_bytes_le_total(encode_utf8(first@.name), encode_utf8(x.name));
                }
            }
        }
        Some(first)
    }
}

fn join_path(dir: &String, name: &str) -> (r: String)
    ensures
        r@ == dir@ + "/"@ + name@,
{
    dir.clone().concat("/").concat(name)
}

} // verus!
