use vstd::prelude::*;
use vstd::string::StringExecFns;

verus! {

/// One captured camera image: dimensions and the raw pixel bytes.
#[derive(Debug, PartialEq)]
pub struct Image {
    pub width: u32,
    pub height: u32,
    pub data: Vec<u8>,
}

/// One named WebAssembly module delivered in a configuration.
#[derive(Debug, PartialEq)]
pub struct WasmModule {
    pub name: String,
    pub wasm: Vec<u8>,
}

/// The configuration payload a `GetConfig` call answers with: a list of
/// named modules.
#[derive(Debug, PartialEq)]
pub struct RrcpConfig {
    pub modules: Vec<WasmModule>,
}

/// The bytes of the first module named "main", if any module carries that
/// name.
pub open spec fn spec_main_wasm(modules: Seq<WasmModule>) -> Option<Seq<u8>>
    decreases modules.len(),
{
    if modules.len() == 0 {
        Option::None
    } else if modules[0].name@ == "main"@ {
        Option::Some(modules[0].wasm@)
    } else {
        spec_main_wasm(modules.drop_first())
    }
}

/// Looking for "main" behind an unmatched prefix finds the same module.
proof fn lemma_main_wasm_skip_prefix(modules: Seq<WasmModule>, i: int)
    requires
        0 <= i <= modules.len(),
        forall|j: int| 0 <= j < i ==> modules[j].name@ != "main"@,
    ensures
        spec_main_wasm(modules) == spec_main_wasm(modules.skip(i)),
    decreases i,
{
    if i > 0 {
        assert(modules[0].name@ != "main"@);
        let rest = modules.drop_first();
        assert(forall|j: int| 0 <= j < i - 1 ==> rest[j].name@ != "main"@);
        lemma_main_wasm_skip_prefix(rest, i - 1);
        assert(rest.skip(i - 1) =~= modules.skip(i));
    } else {
        assert(modules.skip(0) =~= modules);
    }
}

impl RrcpConfig {
    /// The WebAssembly bytes of the first module named "main", or nothing
    /// when no module carries that name.
    pub fn get_main_wasm(&self) -> (r: Option<&[u8]>)
        ensures
            match r {
                Some(w) => spec_main_wasm(self.modules@) == Option::Some(w@),
                Option::None => spec_main_wasm(self.modules@) is None,
            },
    {
        let target: String = String::from_str("main");
        let n = self.modules.len();
        for i in 0..n
            invariant
                n == self.modules@.len(),
                target@ == "main"@,
                forall|j: int| 0 <= j < i ==> self.modules@[j].name@ != "main"@,
        {
            if self.modules[i].name == target {
                proof {
                    lemma_main_wasm_skip_prefix(self.modules@, i as int);
                    assert(self.modules@.skip(i as int)[0] == self.modules@[i as int]);
                }
                return Some(self.modules[i].wasm.as_slice());
            }
        }
        proof {
            lemma_main_wasm_skip_prefix(self.modules@, n as int);
            assert(self.modules@.skip(n as int) =~= Seq::<WasmModule>::empty());
        }
        Option::None
    }
}

} // verus!
