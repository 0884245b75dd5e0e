use vstd::prelude::*;

use crate::catalog::{KemAlgorithm, SigAlgorithm};
use crate::error::RustSealError;

verus! {

/// Where the configuration is stored.
pub const CONFIG_FILE_PATH: &'static str = "./rust-seal.config.json";

/// The directory that holds the key files of the signature schemes.
pub const SIG_KEYS_DIR_PATH: &'static str = "./keys/sig";

/// The directory that holds the key files of the key encapsulation mechanisms.
pub const KEM_KEYS_DIR_PATH: &'static str = "./keys/kem";

/// Extension of a public key file.
pub const PUBLIC_KEY_EXTENSION: &'static str = ".pub";

/// Extension of a secret key file.
pub const SECRET_KEY_EXTENSION: &'static str = ".sec";

/// What a key record states: its algorithm and where its two key files lie.
pub struct RecordView<A> {
    pub algorithm: A,
    pub pub_key_path: Seq<char>,
    pub sec_key_path: Seq<char>,
}

/// The key files of an initialized key encapsulation mechanism.
#[derive(Debug, PartialEq, Eq)]
pub struct KemKeyRecord {
    pub algorithm: KemAlgorithm,
    pub pub_key_path: String,
    pub sec_key_path: String,
}

/// The key files of an initialized signature scheme.
#[derive(Debug, PartialEq, Eq)]
pub struct SigKeyRecord {
    pub algorithm: SigAlgorithm,
    pub pub_key_path: String,
    pub sec_key_path: String,
}

impl View for KemKeyRecord {
    type V = RecordView<KemAlgorithm>;

    open spec fn view(&self) -> RecordView<KemAlgorithm> {
        RecordView {
            algorithm: self.algorithm,
            pub_key_path: self.pub_key_path@,
            sec_key_path: self.sec_key_path@,
        }
    }
}

impl View for SigKeyRecord {
    type V = RecordView<SigAlgorithm>;

    open spec fn view(&self) -> RecordView<SigAlgorithm> {
        RecordView {
            algorithm: self.algorithm,
            pub_key_path: self.pub_key_path@,
            sec_key_path: self.sec_key_path@,
        }
    }
}

impl KemKeyRecord {
    /// A copy of the record.
    pub fn duplicate(&self) -> (r: KemKeyRecord)
        ensures
            r@ == self@,
    {
        KemKeyRecord {
            algorithm: self.algorithm,
            pub_key_path: self.pub_key_path.clone(),
            sec_key_path: self.sec_key_path.clone(),
        }
    }
}

impl SigKeyRecord {
    /// A copy of the record.
    pub fn duplicate(&self) -> (r: SigKeyRecord)
        ensures
            r@ == self@,
    {
        SigKeyRecord {
            algorithm: self.algorithm,
            pub_key_path: self.pub_key_path.clone(),
            sec_key_path: self.sec_key_path.clone(),
        }
    }
}

/// The path of a key file: `<dir>/<name><extension>`.
pub open spec fn key_path(dir: Seq<char>, name: Seq<char>, extension: Seq<char>) -> Seq<char> {
    dir + "/"@ + name + extension
}

/// The record that initializing `alg` creates.
pub open spec fn kem_record(alg: KemAlgorithm) -> RecordView<KemAlgorithm> {
    RecordView {
        algorithm: alg,
        pub_key_path: key_path(KEM_KEYS_DIR_PATH@, alg.spec_name(), PUBLIC_KEY_EXTENSION@),
        sec_key_path: key_path(KEM_KEYS_DIR_PATH@, alg.spec_name(), SECRET_KEY_EXTENSION@),
    }
}

/// The record that initializing `alg` creates.
pub open spec fn sig_record(alg: SigAlgorithm) -> RecordView<SigAlgorithm> {
    RecordView {
        algorithm: alg,
        pub_key_path: key_path(SIG_KEYS_DIR_PATH@, alg.spec_name(), PUBLIC_KEY_EXTENSION@),
        sec_key_path: key_path(SIG_KEYS_DIR_PATH@, alg.spec_name(), SECRET_KEY_EXTENSION@),
    }
}

/// Some record of `records` is for `alg`.
pub open spec fn has_algorithm<A>(records: Seq<RecordView<A>>, alg: A) -> bool {
    exists|i: int| 0 <= i < records.len() && #[trigger] records[i].algorithm == alg
}

/// No two records of `records` are for the same algorithm.
pub open spec fn algorithms_unique<A>(records: Seq<RecordView<A>>) -> bool {
    forall|i: int, j: int|
        0 <= i < j < records.len() ==> #[trigger] records[i].algorithm
            != #[trigger] records[j].algorithm
}

/// The record of `records` for `alg`, if there is one.
pub open spec fn record_for<A>(records: Seq<RecordView<A>>, alg: A) -> Option<RecordView<A>> {
    if has_algorithm(records, alg) {
        Some(records[choose|i: int| 0 <= i < records.len() && #[trigger] records[i].algorithm == alg])
    } else {
        None
    }
}

/// What a configuration states: the key records of each family, in the order in
/// which the algorithms were initialized.
pub struct ConfigView {
    pub kem: Seq<RecordView<KemAlgorithm>>,
    pub sig: Seq<RecordView<SigAlgorithm>>,
}

impl ConfigView {
    /// At most one record per algorithm in each family.
    pub open spec fn wf(self) -> bool {
        algorithms_unique(self.kem) && algorithms_unique(self.sig)
    }

    pub open spec fn kem_initialized(self, alg: KemAlgorithm) -> bool {
        has_algorithm(self.kem, alg)
    }

    pub open spec fn sig_initialized(self, alg: SigAlgorithm) -> bool {
        has_algorithm(self.sig, alg)
    }

    /// The configuration after a first initialization of `alg`.
    pub open spec fn with_kem(self, alg: KemAlgorithm) -> ConfigView {
        ConfigView { kem: self.kem.push(kem_record(alg)), sig: self.sig }
    }

    /// The configuration after a first initialization of `alg`.
    pub open spec fn with_sig(self, alg: SigAlgorithm) -> ConfigView {
        ConfigView { kem: self.kem, sig: self.sig.push(sig_record(alg)) }
    }
}

/// The key records of both algorithm families.
#[derive(Debug)]
pub struct Config {
    kem_algorithms: Vec<KemKeyRecord>,
    signature_algorithms: Vec<SigKeyRecord>,
}

impl Config {
    /// No family holds two records for one algorithm.
    #[verifier::type_invariant]
    closed spec fn inv(&self) -> bool {
        self@.wf()
    }
}

impl View for Config {
    type V = ConfigView;

    closed spec fn view(&self) -> ConfigView {
        ConfigView {
            kem: self.kem_algorithms@.map_values(|r: KemKeyRecord| r@),
            sig: self.signature_algorithms@.map_values(|r: SigKeyRecord| r@),
        }
    }
}

impl Config {
    /// Whether a record for `algorithm` is in `records`; its index if so.
    fn find_kem(&self, algorithm: KemAlgorithm) -> (r: Option<usize>)
        ensures
            r matches Some(i) ==> i < self@.kem.len() && self@.kem[i as int].algorithm == algorithm,
            r is None ==> !has_algorithm(self@.kem, algorithm),
    {
        let mut i: usize = 0;
        while i < self.kem_algorithms.len()
            invariant
                i <= self.kem_algorithms@.len(),
                forall|j: int| 0 <= j < i ==> #[trigger] self@.kem[j].algorithm != algorithm,
            decreases self.kem_algorithms@.len() - i,
        {
            if self.kem_algorithms[i].algorithm == algorithm {
                return Some(i);
            }
            i = i + 1;
        }
        None
    }
}

/// Whether no two of `records` are for the same algorithm.
fn kem_records_unique(records: &Vec<KemKeyRecord>) -> (r: bool)
    ensures
        r == algorithms_unique(records@.map_values(|x: KemKeyRecord| x@)),
{
    let ghost v = records@.map_values(|x: KemKeyRecord| x@);
    let mut i: usize = 0;
    while i < records.len()
        invariant
            i <= records@.len(),
            v == records@.map_values(|x: KemKeyRecord| x@),
            forall|a: int, b: int|
                0 <= a < b < i ==> #[trigger] v[a].algorithm != #[trigger] v[b].algorithm,
        decreases records@.len() - i,
    {
        let mut j: usize = 0;
        while j < i
            invariant
                j <= i < records@.len(),
                v == records@.map_values(|x: KemKeyRecord| x@),
                forall|a: int, b: int|
                    0 <= a < b < i ==> #[trigger] v[a].algorithm != #[trigger] v[b].algorithm,
                forall|a: int| 0 <= a < j ==> #[trigger] v[a].algorithm != v[i as int].algorithm,
            decreases i - j,
        {
            if records[j].algorithm == records[i].algorithm {
                assert(v[j as int].algorithm == v[i as int].algorithm);
                return false;
            }
            j = j + 1;
        }
        i = i + 1;
    }
    true
}

impl Config {
    /// Whether a record for `algorithm` is in `records`; its index if so.
    fn find_sig(&self, algorithm: SigAlgorithm) -> (r: Option<usize>)
        ensures
            r matches Some(i) ==> i < self@.sig.len() && self@.sig[i as int].algorithm == algorithm,
            r is None ==> !has_algorithm(self@.sig, algorithm),
    {
        let mut i: usize = 0;
        while i < self.signature_algorithms.len()
            invariant
                i <= self.signature_algorithms@.len(),
                forall|j: int| 0 <= j < i ==> #[trigger] self@.sig[j].algorithm != algorithm,
            decreases self.signature_algorithms@.len() - i,
        {
            if self.signature_algorithms[i].algorithm == algorithm {
                return Some(i);
            }
            i = i + 1;
        }
        None
    }
}

/// Whether no two of `records` are for the same algorithm.
fn sig_records_unique(records: &Vec<SigKeyRecord>) -> (r: bool)
    ensures
        r == algorithms_unique(records@.map_values(|x: SigKeyRecord| x@)),
{
    let ghost v = records@.map_values(|x: SigKeyRecord| x@);
    let mut i: usize = 0;
    while i < records.len()
        invariant
            i <= records@.len(),
            v == records@.map_values(|x: SigKeyRecord| x@),
            forall|a: int, b: int|
                0 <= a < b < i ==> #[trigger] v[a].algorithm != #[trigger] v[b].algorithm,
        decreases records@.len() - i,
    {
        let mut j: usize = 0;
        while j < i
            invariant
                j <= i < records@.len(),
                v == records@.map_values(|x: SigKeyRecord| x@),
                forall|a: int, b: int|
                    0 <= a < b < i ==> #[trigger] v[a].algorithm != #[trigger] v[b].algorithm,
                forall|a: int| 0 <= a < j ==> #[trigger] v[a].algorithm != v[i as int].algorithm,
            decreases i - j,
        {
            if records[j].algorithm == records[i].algorithm {
                assert(v[j as int].algorithm == v[i as int].algorithm);
                return false;
            }
            j = j + 1;
        }
        i = i + 1;
    }
    true
}

/// Builds the path `<dir>/<name><extension>`.
fn key_file_path(dir: &str, name: &str, extension: &str) -> (r: String)
    ensures
        r@ == key_path(dir@, name@, extension@),
{
    let mut path = String::from_str(dir);
    path.append("/");
    path.append(name);
    path.append(extension);
    path
}

impl Config {
    /// The configuration with no algorithm initialized.
    pub fn new() -> (r: Config)
        ensures
            r@.kem.len() == 0,
            r@.sig.len() == 0,
            r@.wf(),
    {
        let r = Config { kem_algorithms: Vec::new(), signature_algorithms: Vec::new() };
        assert(r@.kem =~= Seq::empty());
        assert(r@.sig =~= Seq::empty());
        r
    }

    /// The configuration that holds the given records, where no two records of a
    /// family are for the same algorithm; `ConfigCorrupt` otherwise.
    pub fn from_records(kem: Vec<KemKeyRecord>, sig: Vec<SigKeyRecord>) -> (r: Result<
        Config,
        RustSealError,
    >)
        ensures
            algorithms_unique(kem@.map_values(|x: KemKeyRecord| x@)) && algorithms_unique(
                sig@.map_values(|x: SigKeyRecord| x@),
            ) ==> (r matches Ok(c) && c@.kem == kem@.map_values(|x: KemKeyRecord| x@) && c@.sig
                == sig@.map_values(|x: SigKeyRecord| x@)),
            !(algorithms_unique(kem@.map_values(|x: KemKeyRecord| x@)) && algorithms_unique(
                sig@.map_values(|x: SigKeyRecord| x@),
            )) ==> r is Err && r->Err_0 == RustSealError::ConfigCorrupt,
            r matches Ok(c) ==> c@.wf(),
    {
        if !kem_records_unique(&kem) || !sig_records_unique(&sig) {
            return Err(RustSealError::ConfigCorrupt);
        }
        Ok(Config { kem_algorithms: kem, signature_algorithms: sig })
    }

    /// The key records of the key encapsulation mechanisms, in order of initialization.
    pub fn kem_records(&self) -> (r: &[KemKeyRecord])
        ensures
            r@.map_values(|x: KemKeyRecord| x@) == self@.kem,
    {
        self.kem_algorithms.as_slice()
    }

    /// The key records of the signature schemes, in order of initialization.
    pub fn signature_records(&self) -> (r: &[SigKeyRecord])
        ensures
            r@.map_values(|x: SigKeyRecord| x@) == self@.sig,
    {
        self.signature_algorithms.as_slice()
    }

    /// Records `algorithm` with the key files `<dir>/<name>.pub` and `<dir>/<name>.sec`
    /// and returns that record. Fails with `AlreadyInitialized`, and changes nothing,
    /// where the algorithm is already recorded.
    pub fn add_kem_algorithm(&mut self, algorithm: &KemAlgorithm) -> (r: Result<
        KemKeyRecord,
        RustSealError,
    >)
        ensures
            final(self)@.wf(),
            final(self)@.kem_initialized(*algorithm),
            old(self)@.kem_initialized(*algorithm) ==> r is Err && r->Err_0
                == RustSealError::AlreadyInitialized && final(self)@ == old(self)@,
            !old(self)@.kem_initialized(*algorithm) ==> r is Ok && r->Ok_0@ == kem_record(
                *algorithm,
            ) && final(self)@ == old(self)@.with_kem(*algorithm),
    {
        proof {
            use_type_invariant(&*self);
        }
        if self.find_kem(*algorithm).is_some() {
            return Err(RustSealError::AlreadyInitialized);
        }
        let ghost before = self@;
        let name = algorithm.name();
        let record = KemKeyRecord {
            algorithm: *algorithm,
            pub_key_path: key_file_path(KEM_KEYS_DIR_PATH, name, PUBLIC_KEY_EXTENSION),
            sec_key_path: key_file_path(KEM_KEYS_DIR_PATH, name, SECRET_KEY_EXTENSION),
        };
        let result = record.duplicate();
        let mut records = Vec::new();
        std::mem::swap(&mut records, &mut self.kem_algorithms);
        records.push(record);
        assert(records@.map_values(|x: KemKeyRecord| x@) =~= before.kem.push(
            kem_record(*algorithm),
        ));
        self.kem_algorithms = records;
        assert(self@.kem[before.kem.len() as int].algorithm == *algorithm);
        assert(self@.sig =~= before.sig);
        Ok(result)
    }

    /// The record of `algorithm`. Fails with `NotInitialized` where the algorithm is
    /// not recorded.
    pub fn get_kem_keys(&self, algorithm: &KemAlgorithm) -> (r: Result<KemKeyRecord, RustSealError>)
        ensures
            !self@.kem_initialized(*algorithm) ==> r is Err && r->Err_0
                == RustSealError::NotInitialized,
            self@.kem_initialized(*algorithm) ==> r is Ok && record_for(self@.kem, *algorithm)
                == Some(r->Ok_0@),
    {
        proof {
            use_type_invariant(self);
        }
        match self.find_kem(*algorithm) {
            Some(i) => {
                let record = self.kem_algorithms[i].duplicate();
                proof {
                    let records = self@.kem;
                    let j = choose|j: int|
                        0 <= j < records.len() && #[trigger] records[j].algorithm == *algorithm;
                    assert(records[i as int].algorithm == *algorithm);
                    assert(j == i) by {
                        if j < i {
                            assert(records[j].algorithm != records[i as int].algorithm);
                        } else if i < j {
                            assert(records[i as int].algorithm != records[j].algorithm);
                        }
                    }
                }
                Ok(record)
            },
            None => Err(RustSealError::NotInitialized),
        }
    }

    /// Records `algorithm` with the key files `<dir>/<name>.pub` and `<dir>/<name>.sec`
    /// and returns that record. Fails with `AlreadyInitialized`, and changes nothing,
    /// where the algorithm is already recorded.
    pub fn add_signature_algorithm(&mut self, algorithm: &SigAlgorithm) -> (r: Result<
        SigKeyRecord,
        RustSealError,
    >)
        ensures
            final(self)@.wf(),
            final(self)@.sig_initialized(*algorithm),
            old(self)@.sig_initialized(*algorithm) ==> r is Err && r->Err_0
                == RustSealError::AlreadyInitialized && final(self)@ == old(self)@,
            !old(self)@.sig_initialized(*algorithm) ==> r is Ok && r->Ok_0@ == sig_record(
                *algorithm,
            ) && final(self)@ == old(self)@.with_sig(*algorithm),
    {
        proof {
            use_type_invariant(&*self);
        }
        if self.find_sig(*algorithm).is_some() {
            return Err(RustSealError::AlreadyInitialized);
        }
        let ghost before = self@;
        let name = algorithm.name();
        let record = SigKeyRecord {
            algorithm: *algorithm,
            pub_key_path: key_file_path(SIG_KEYS_DIR_PATH, name, PUBLIC_KEY_EXTENSION),
            sec_key_path: key_file_path(SIG_KEYS_DIR_PATH, name, SECRET_KEY_EXTENSION),
        };
        let result = record.duplicate();
        let mut records = Vec::new();
        std::mem::swap(&mut records, &mut self.signature_algorithms);
        records.push(record);
        assert(records@.map_values(|x: SigKeyRecord| x@) =~= before.sig.push(
            sig_record(*algorithm),
        ));
        self.signature_algorithms = records;
        assert(self@.sig[before.sig.len() as int].algorithm == *algorithm);
        assert(self@.kem =~= before.kem);
        Ok(result)
    }

    /// The record of `algorithm`. Fails with `NotInitialized` where the algorithm is
    /// not recorded.
    pub fn get_signature_keys(&self, algorithm: &SigAlgorithm) -> (r: Result<SigKeyRecord, RustSealError>)
        ensures
            !self@.sig_initialized(*algorithm) ==> r is Err && r->Err_0
                == RustSealError::NotInitialized,
            self@.sig_initialized(*algorithm) ==> r is Ok && record_for(self@.sig, *algorithm)
                == Some(r->Ok_0@),
    {
        proof {
            use_type_invariant(self);
        }
        match self.find_sig(*algorithm) {
            Some(i) => {
                let record = self.signature_algorithms[i].duplicate();
                proof {
                    let records = self@.sig;
                    let j = choose|j: int|
                        0 <= j < records.len() && #[trigger] records[j].algorithm == *algorithm;
                    assert(records[i as int].algorithm == *algorithm);
                    assert(j == i) by {
                        if j < i {
                            assert(records[j].algorithm != records[i as int].algorithm);
                        } else if i < j {
                            assert(records[i as int].algorithm != records[j].algorithm);
                        }
                    }
                }
                Ok(record)
            },
            None => Err(RustSealError::NotInitialized),
        }
    }
}

/// After a first initialization of `alg`, the configuration stays well formed, records
/// `alg`, and holds for it the key files that this first initialization chose; so a
/// second initialization of `alg` fails with `AlreadyInitialized` and leaves them as they are.
pub proof fn lemma_kem_initialize_twice(c: ConfigView, alg: KemAlgorithm)
    requires
        c.wf(),
        !c.kem_initialized(alg),
    ensures
        c.with_kem(alg).wf(),
        c.with_kem(alg).kem_initialized(alg),
        record_for(c.with_kem(alg).kem, alg) == Some(kem_record(alg)),
{
    let records = c.with_kem(alg).kem;
    let last = c.kem.len() as int;
    assert(records[last].algorithm == alg);
    let j = choose|j: int| 0 <= j < records.len() && #[trigger] records[j].algorithm == alg;
    if j < last {
        assert(c.kem[j].algorithm == alg);
    }
}

/// An algorithm that was never initialized stays uninitialized while other algorithms of
/// its family are initialized, so a lookup of it fails with `NotInitialized`.
pub proof fn lemma_kem_lookup_uninitialized(c: ConfigView, alg: KemAlgorithm, other: KemAlgorithm)
    requires
        !c.kem_initialized(alg),
        alg != other,
    ensures
        !c.with_kem(other).kem_initialized(alg),
{
    let records = c.with_kem(other).kem;
    assert forall|i: int| 0 <= i < records.len() implies #[trigger] records[i].algorithm != alg by {
        if i < c.kem.len() {
            assert(c.kem[i] == records[i]);
        }
    }
}

/// After a first initialization of `alg`, the configuration stays well formed, records
/// `alg`, and holds for it the key files that this first initialization chose; so a
/// second initialization of `alg` fails with `AlreadyInitialized` and leaves them as they are.
pub proof fn lemma_sig_initialize_twice(c: ConfigView, alg: SigAlgorithm)
    requires
        c.wf(),
        !c.sig_initialized(alg),
    ensures
        c.with_sig(alg).wf(),
        c.with_sig(alg).sig_initialized(alg),
        record_for(c.with_sig(alg).sig, alg) == Some(sig_record(alg)),
{
    let records = c.with_sig(alg).sig;
    let last = c.sig.len() as int;
    assert(records[last].algorithm == alg);
    let j = choose|j: int| 0 <= j < records.len() && #[trigger] records[j].algorithm == alg;
    if j < last {
        assert(c.sig[j].algorithm == alg);
    }
}

/// An algorithm that was never initialized stays uninitialized while other algorithms of
/// its family are initialized, so a lookup of it fails with `NotInitialized`.
pub proof fn lemma_sig_lookup_uninitialized(c: ConfigView, alg: SigAlgorithm, other: SigAlgorithm)
    requires
        !c.sig_initialized(alg),
        alg != other,
    ensures
        !c.with_sig(other).sig_initialized(alg),
{
    let records = c.with_sig(other).sig;
    assert forall|i: int| 0 <= i < records.len() implies #[trigger] records[i].algorithm != alg by {
        if i < c.sig.len() {
            assert(c.sig[i] == records[i]);
        }
    }
}

} // verus!
