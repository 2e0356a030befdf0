//! The argument list that the mount facility reads its options from.

use crate::cstr::{contains_nul, has_nul, texts, NulTerminated};
use vstd::prelude::*;
use vstd::string::StringSliceAdditionalSpecFns;

verus! {

/// The text that stands for the program's name at the head of every argument
/// list.
pub const PROGRAM: &'static str = "rust-fuse";

/// The bytes of `PROGRAM`.
pub open spec fn program() -> Seq<u8> {
    PROGRAM.spec_bytes()
}

/// The argument list for `options`: the program's name, then the options as
/// they came.
pub open spec fn marshaled(options: Seq<Seq<u8>>) -> Seq<Seq<u8>> {
    seq![program()] + options
}

/// Whether `options` can be made into an argument list: each is free of NUL
/// bytes, and with the program's name their number fits the C `int` that
/// counts them.
pub open spec fn can_marshal(options: Seq<Seq<u8>>) -> bool {
    &&& options.len() < i32::MAX
    &&& forall|i: int| 0 <= i < options.len() ==> !has_nul(#[trigger] options[i])
}

/// `PROGRAM` is eight ASCII letters and a hyphen: its bytes are its characters,
/// and none of them is NUL.
pub proof fn lemma_program()
    ensures
        program() == seq![114u8, 117, 115, 116, 45, 102, 117, 115, 101],
        !has_nul(program()),
{
    reveal_strlit("rust-fuse");
    let chars = PROGRAM@;
    assert(vstd::utf8::is_ascii_chars(chars));
    vstd::utf8::is_ascii_chars_encode_utf8(chars);
    let bytes = program();
    assert(bytes =~= seq![114u8, 117, 115, 116, 45, 102, 117, 115, 101]);
}

/// The argument list for `options` holds one argument more than there are
/// options: the program's name first, then each option at the place after
/// its own.
pub proof fn lemma_marshaled(options: Seq<Seq<u8>>)
    ensures
        marshaled(options).len() == options.len() + 1,
        marshaled(options)[0] == program(),
        forall|i: int| 0 <= i < options.len() ==> marshaled(options)[i + 1] == #[trigger] options[i],
{
}

/// Tells whether `options` can be made into an argument list.
pub fn marshalable(options: &[&[u8]]) -> (ok: bool)
    ensures
        ok == can_marshal(texts(options)),
{
    if options.len() >= 0x7fff_ffff {
        return false;
    }
    let mut i: usize = 0;
    while i < options.len()
        invariant
            i <= options.len(),
            options.len() < i32::MAX,
            forall|k: int| 0 <= k < i ==> !has_nul(#[trigger] texts(options)[k]),
        decreases options.len() - i,
    {
        if contains_nul(options[i]) {
            assert(has_nul(texts(options)[i as int]));
            return false;
        }
        i += 1;
    }
    true
}

/// An argument list in the shape that C programs receive: a count, and that
/// many C strings, the first of which names the program.
#[derive(Debug, PartialEq, Eq)]
pub struct FuseArgs {
    argc: i32,
    argv: Vec<NulTerminated>,
}

impl View for FuseArgs {
    type V = Seq<Seq<u8>>;

    /// The arguments in order, each without the NUL byte that ends it.
    closed spec fn view(&self) -> Seq<Seq<u8>> {
        Seq::new(self.argv@.len(), |i: int| self.argv@[i]@)
    }
}

impl FuseArgs {
    #[verifier::type_invariant]
    spec fn counted(self) -> bool {
        self.argc == self.argv@.len()
    }

    /// Assembles the argument list for `options`: it holds one argument more
    /// than there are options, the first is the program's name, and the
    /// others are the options in the order given.
    pub fn new(options: &[&[u8]]) -> (args: Self)
        requires
            can_marshal(texts(options)),
        ensures
            args@ == marshaled(texts(options)),
            args@.len() == options@.len() + 1,
            args@[0] == program(),
            forall|i: int| 0 <= i < options@.len() ==> args@[i + 1] == (#[trigger] options@[i])@,
    {
        proof {
            lemma_program();
        }
        let mut argv: Vec<NulTerminated> = Vec::new();
        argv.push(NulTerminated::new(PROGRAM.as_bytes()));
        let mut i: usize = 0;
        while i < options.len()
            invariant
                i <= options.len(),
                can_marshal(texts(options)),
                argv@.len() == i + 1,
                argv@[0]@ == program(),
                forall|k: int| 0 <= k < i ==> (#[trigger] argv@[k + 1])@ == options@[k]@,
            decreases options.len() - i,
        {
            assert(!has_nul(texts(options)[i as int]));
            argv.push(NulTerminated::new(options[i]));
            i += 1;
        }
        let argc = argv.len() as i32;
        let args = FuseArgs { argc, argv };
        proof {
            let listed = marshaled(texts(options));
            assert forall|k: int| 0 <= k < listed.len() implies args@[k] == listed[k] by {
                if k > 0 {
                    assert(argv@[(k - 1) + 1]@ == options@[k - 1]@);
                }
            }
            assert(args@ =~= listed);
        }
        args
    }

    /// The number of arguments, the program's name among them.
    pub fn argc(&self) -> (argc: i32)
        ensures
            argc == self@.len(),
    {
        proof {
            use_type_invariant(self);
        }
        self.argc
    }

    /// Whether the reader of the list may free the arguments: never, since
    /// they belong to the list.
    pub fn allocated(&self) -> (allocated: i32)
        ensures
            allocated == 0,
    {
        0
    }

    /// The arguments in order, as C strings.
    pub fn argv(&self) -> (argv: &[NulTerminated])
        ensures
            argv@.len() == self@.len(),
            forall|i: int| 0 <= i < argv@.len() ==> (#[trigger] argv@[i])@ == self@[i],
    {
        self.argv.as_slice()
    }
}

/// Assembles the argument list for `options` and hands it to `f` for as long
/// as the call lasts; what `f` returns is the result.
pub fn with_fuse_args<T, F: FnOnce(&FuseArgs) -> T>(options: &[&[u8]], f: F) -> (result: T)
    requires
        can_marshal(texts(options)),
        forall|args: FuseArgs| args@ == marshaled(texts(options)) ==> f.requires((&args,)),
    ensures
        exists|args: FuseArgs|
            args@ == marshaled(texts(options)) && f.ensures((&args,), result),
{
    let args = FuseArgs::new(options);
    f(&args)
}

} // verus!
