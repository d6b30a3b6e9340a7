//! A compiled program: its bytecode, and the table of functions that the
//! bytecode defines.

use vstd::prelude::*;
use crate::error::{Error, ErrorView, rview};
use crate::text::{concat_str, owned};

verus! {

/// What `CompiledBinary::deserialize` finds in `bytes`: `None` when they are
/// not a valid binary, else for each function, in order, its name, number of
/// parameters and number of registers.
pub uninterp spec fn binary_functions(bytes: Seq<u8>) -> Option<Seq<(Seq<char>, usize, usize)>>;

/// The plain view of a function table.
pub open spec fn table_view(v: Seq<(String, usize, usize)>) -> Seq<(Seq<char>, usize, usize)> {
    v.map_values(|t: (String, usize, usize)| (t.0@, t.1, t.2))
}

/// Calls `CompiledBinary::deserialize` (of `stoffel_vm_types`, through
/// `stoffellang`) on the bytes and picks, for each function, its `name`, the
/// length of its `parameters` and its `register_count`. Claimed: the outcome
/// is a function of the bytes, named [`binary_functions`]; an error comes back
/// as its `Debug` text.
#[verifier::external_body]
fn decode_function_table(bytes: &[u8]) -> (r: Result<Vec<(String, usize, usize)>, String>)
    ensures
        binary_functions(bytes@) == (match r {
            Ok(v) => Some(table_view(v@)),
            Err(_) => None,
        }),
{
    let mut reader: &[u8] = bytes;
    match stoffellang::stoffel_vm_types::compiled_binary::CompiledBinary::deserialize(&mut reader) {
        Ok(b) => Ok(b.functions.iter().map(|f| (f.name.clone(), f.parameters.len(), f.register_count)).collect()),
        Err(e) => Err(format!("{:?}", e)),
    }
}

/// A function defined by a program.
#[derive(Clone, Debug, PartialEq, Eq)]
pub struct FunctionInfo {
    /// Name of the function.
    pub name: String,
    /// Number of parameters.
    pub parameter_count: usize,
    /// Number of registers it uses.
    pub register_count: usize,
}

/// The prefix of the message given for bytecode that cannot be loaded.
pub open spec fn load_failure_prefix() -> Seq<char> {
    "Failed to load bytecode: "@
}

/// The function table of a decoded binary, as [`FunctionInfo`] values in the
/// same order; a decoding failure becomes a runtime error with its reason.
pub fn function_infos(decoded: Result<Vec<(String, usize, usize)>, String>) -> (r: Result<
    Vec<FunctionInfo>,
    Error,
>)
    ensures
        match decoded {
            Ok(v) => r matches Ok(fs) && fs@.len() == v@.len() && forall|i: int|
                0 <= i < v@.len() ==> (#[trigger] fs@[i]).name@ == v@[i].0@
                    && fs@[i].parameter_count == v@[i].1 && fs@[i].register_count == v@[i].2,
            Err(reason) => rview(r) == Err::<Vec<FunctionInfo>, ErrorView>(
                ErrorView::Runtime(load_failure_prefix() + reason@),
            ),
        },
{
    match decoded {
        Ok(v) => {
            let mut fs: Vec<FunctionInfo> = Vec::new();
            let mut i: usize = 0;
            while i < v.len()
                invariant
                    i <= v@.len(),
                    fs@.len() == i,
                    forall|j: int|
                        0 <= j < i ==> (#[trigger] fs@[j]).name@ == v@[j].0@
                            && fs@[j].parameter_count == v@[j].1 && fs@[j].register_count
                            == v@[j].2,
                decreases v@.len() - i,
            {
                let (name, p, reg) = (&v[i].0, v[i].1, v[i].2);
                fs.push(FunctionInfo { name: owned(name.as_str()), parameter_count: p, register_count: reg });
                i = i + 1;
            }
            Ok(fs)
        },
        Err(reason) => Err(Error::Runtime(concat_str(owned("Failed to load bytecode: "), reason.as_str()))),
    }
}

/// Compiled bytecode.
#[derive(Clone, Debug, PartialEq, Eq)]
pub struct Program {
    bytecode: Vec<u8>,
}

impl Program {
    /// The program's bytecode.
    pub closed spec fn code(&self) -> Seq<u8> {
        self.bytecode@
    }

    /// A program holding `bytecode`.
    pub fn new(bytecode: Vec<u8>) -> (p: Self)
        ensures
            p.code() == bytecode@,
    {
        Program { bytecode }
    }

    /// The bytecode.
    pub fn bytecode(&self) -> (b: &[u8])
        ensures
            b@ == self.code(),
    {
        self.bytecode.as_slice()
    }

    /// The functions that the bytecode defines, in order; bytecode that is
    /// not a valid binary gives a runtime error.
    pub fn list_functions(&self) -> (r: Result<Vec<FunctionInfo>, Error>)
        ensures
            match binary_functions(self.code()) {
                Some(t) => r matches Ok(fs) && fs@.len() == t.len() && forall|i: int|
                    0 <= i < t.len() ==> (#[trigger] fs@[i]).name@ == t[i].0
                        && fs@[i].parameter_count == t[i].1 && fs@[i].register_count == t[i].2,
                None => r matches Err(Error::Runtime(m)) && load_failure_prefix().is_prefix_of(m@),
            },
    {
        let decoded = decode_function_table(self.bytecode.as_slice());
        proof {
            if decoded is Err {
                let m = load_failure_prefix() + decoded->Err_0@;
                assert(m.subrange(0, load_failure_prefix().len() as int) =~= load_failure_prefix());
            }
        }
        function_infos(decoded)
    }

    /// A copy of the program.
    pub fn duplicate(&self) -> (p: Self)
        ensures
            p.code() == self.code(),
    {
        let mut b: Vec<u8> = Vec::new();
        let mut i: usize = 0;
        while i < self.bytecode.len()
            invariant
                i <= self.bytecode@.len(),
                b@ =~= self.bytecode@.take(i as int),
            decreases self.bytecode@.len() - i,
        {
            b.push(self.bytecode[i]);
            i = i + 1;
        }
        assert(self.bytecode@.take(self.bytecode@.len() as int) =~= self.bytecode@);
        Program { bytecode: b }
    }
}

} // verus!
