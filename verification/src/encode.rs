//! The call encoder: selectors and ABI-encoded argument payloads.
//!
//! A call payload is the 4-byte selector — the leading bytes of the Keccak-256
//! digest of the canonical signature, e.g. `transfer(address,uint256)` —
//! followed by each argument encoded as one 32-byte word: addresses are
//! left-padded with 12 zero bytes, unsigned integers are big-endian words.

use vstd::prelude::*;
use crate::bytes::{copy_range, extend_bytes, Address, Word};
use crate::keccak::{keccak256, keccak_of};

verus! {

/// A declared parameter type of a contract function.
#[derive(Clone, Copy, PartialEq, Eq, Structural, Debug)]
pub enum ParamType {
    Address,
    Uint256,
}

/// A runtime argument value.
pub enum Token {
    Address(Address),
    Uint(Word),
}

/// The argument value is well-formed for its own kind.
pub open spec fn token_wf(t: Token) -> bool {
    match t {
        Token::Address(a) => a.wf(),
        Token::Uint(w) => w.wf(),
    }
}

/// The argument's runtime kind agrees with the declared parameter type.
pub open spec fn token_matches(t: Token, p: ParamType) -> bool {
    match t {
        Token::Address(_) => p is Address,
        Token::Uint(_) => p is Uint256,
    }
}

/// Every argument agrees in count and kind with the declared parameters.
pub open spec fn types_match(args: Seq<Token>, params: Seq<ParamType>) -> bool {
    args.len() == params.len() && forall|k: int|
        0 <= k < args.len() ==> token_matches(#[trigger] args[k], params[k])
}

/// The 32-byte ABI word encoding one argument.
pub open spec fn abi_word(t: Token) -> Seq<u8> {
    match t {
        Token::Address(a) => Seq::new(12, |i: int| 0u8) + a@,
        Token::Uint(w) => w@,
    }
}

/// The concatenated ABI words of an argument list.
pub open spec fn encode_args_spec(args: Seq<Token>) -> Seq<u8>
    decreases args.len(),
{
    if args.len() == 0 {
        Seq::empty()
    } else {
        encode_args_spec(args.drop_last()) + abi_word(args.last())
    }
}

/// The canonical type name used in a signature.
pub open spec fn param_name_spec(p: ParamType) -> Seq<u8> {
    match p {
        ParamType::Address => seq![97u8, 100u8, 100u8, 114u8, 101u8, 115u8, 115u8],
        ParamType::Uint256 => seq![117u8, 105u8, 110u8, 116u8, 50u8, 53u8, 54u8],
    }
}

/// The comma-joined parameter type list of a signature.
pub open spec fn params_sig(ps: Seq<ParamType>) -> Seq<u8>
    decreases ps.len(),
{
    if ps.len() == 0 {
        Seq::empty()
    } else if ps.len() == 1 {
        param_name_spec(ps[0])
    } else {
        params_sig(ps.drop_last()) + seq![44u8] + param_name_spec(ps.last())
    }
}

/// The canonical signature: name, then the parameter list in parentheses.
pub open spec fn sig_of(f: FunctionDecl) -> Seq<u8> {
    f.name@ + seq![40u8] + params_sig(f.params@) + seq![41u8]
}

/// The 4-byte dispatch tag of a signature.
pub open spec fn selector_spec(sig: Seq<u8>) -> Seq<u8> {
    keccak_of(sig).subrange(0, 4)
}

/// One entry of a contract's interface description.
pub struct FunctionDecl {
    /// The function's name, as ASCII bytes.
    pub name: Vec<u8>,
    /// The declared parameter types, in order.
    pub params: Vec<ParamType>,
}

/// A contract's interface description: its callable functions.
pub struct Interface {
    pub functions: Vec<FunctionDecl>,
}

/// Some declared function carries this name.
pub open spec fn has_fn(fs: Seq<FunctionDecl>, name: Seq<u8>) -> bool {
    exists|i: int| 0 <= i < fs.len() && (#[trigger] fs[i]).name@ == name
}

impl Interface {
    /// Function names are unique, so a name picks at most one declaration.
    pub open spec fn wf(&self) -> bool {
        forall|i: int, j: int|
            0 <= i < j < self.functions@.len() ==> (#[trigger] self.functions@[i]).name@ != (
            #[trigger] self.functions@[j]).name@
    }
}

/// An encoding request that cannot be met.
#[derive(Clone, Copy, PartialEq, Eq, Structural, Debug)]
pub enum EncodeError {
    /// No declared function carries the requested name.
    SignatureMismatch,
    /// An argument's count or kind disagrees with the declaration.
    ArgumentTypeMismatch,
}

/// The canonical type name of one parameter, as bytes.
fn param_name(p: &ParamType) -> (r: Vec<u8>)
    ensures
        r@ == param_name_spec(*p),
{
    let mut r: Vec<u8> = Vec::new();
    match p {
        ParamType::Address => {
            r.push(97);
            r.push(100);
            r.push(100);
            r.push(114);
            r.push(101);
            r.push(115);
            r.push(115);
            proof {
                assert(r@ =~= param_name_spec(*p));
            }
        },
        ParamType::Uint256 => {
            r.push(117);
            r.push(105);
            r.push(110);
            r.push(116);
            r.push(50);
            r.push(53);
            r.push(54);
            proof {
                assert(r@ =~= param_name_spec(*p));
            }
        },
    }
    r
}

/// Builds the canonical signature bytes of a declared function.
pub fn signature_bytes(f: &FunctionDecl) -> (r: Vec<u8>)
    ensures
        r@ == sig_of(*f),
{
    let mut r: Vec<u8> = Vec::new();
    extend_bytes(&mut r, &f.name);
    r.push(40);
    proof {
        assert(r@ =~= f.name@ + seq![40u8] + params_sig(f.params@.take(0)));
    }
    let mut j: usize = 0;
    while j < f.params.len()
        invariant
            j <= f.params@.len(),
            r@ == f.name@ + seq![40u8] + params_sig(f.params@.take(j as int)),
        decreases f.params@.len() - j,
    {
        if j > 0 {
            r.push(44);
        }
        let pn = param_name(&f.params[j]);
        extend_bytes(&mut r, &pn);
        proof {
            assert(f.params@.take(j + 1).drop_last() =~= f.params@.take(j as int));
            assert(f.params@.take(j + 1).last() == f.params@[j as int]);
            assert(r@ =~= f.name@ + seq![40u8] + params_sig(f.params@.take(j + 1)));
        }
        j = j + 1;
    }
    r.push(41);
    proof {
        assert(f.params@.take(f.params@.len() as int) =~= f.params@);
        assert(r@ =~= sig_of(*f));
    }
    r
}

/// Computes the 4-byte selector of a canonical signature: the first four
/// bytes of its Keccak-256 digest.
pub fn selector(sig: &Vec<u8>) -> (r: Vec<u8>)
    ensures
        r@.len() == 4,
        r@ == selector_spec(sig@),
{
    let h = keccak256(sig);
    copy_range(&h, 0, 4)
}

/// Whether every argument agrees with the declared parameter list.
fn types_ok(args: &Vec<Token>, params: &Vec<ParamType>) -> (r: bool)
    ensures
        r == types_match(args@, params@),
{
    if args.len() != params.len() {
        return false;
    }
    let mut k: usize = 0;
    while k < args.len()
        invariant
            args@.len() == params@.len(),
            k <= args@.len(),
            forall|m: int| 0 <= m < k ==> token_matches(#[trigger] args@[m], params@[m]),
        decreases args@.len() - k,
    {
        let ok = match (&args[k], &params[k]) {
            (Token::Address(_), ParamType::Address) => true,
            (Token::Uint(_), ParamType::Uint256) => true,
            _ => false,
        };
        if !ok {
            return false;
        }
        k = k + 1;
    }
    true
}

/// Concatenates the 32-byte ABI words of the arguments.
fn encode_args(args: &Vec<Token>) -> (r: Vec<u8>)
    requires
        forall|i: int| 0 <= i < args@.len() ==> token_wf(#[trigger] args@[i]),
    ensures
        r@ == encode_args_spec(args@),
{
    let mut r: Vec<u8> = Vec::new();
    let mut j: usize = 0;
    proof {
        assert(r@ =~= encode_args_spec(args@.take(0)));
    }
    while j < args.len()
        invariant
            forall|i: int| 0 <= i < args@.len() ==> token_wf(#[trigger] args@[i]),
            j <= args@.len(),
            r@ == encode_args_spec(args@.take(j as int)),
        decreases args@.len() - j,
    {
        match &args[j] {
            Token::Address(a) => {
                let mut z: usize = 0;
                let ghost mid = r@;
                while z < 12
                    invariant
                        z <= 12,
                        r@ == mid + Seq::new(z as nat, |i: int| 0u8),
                    decreases 12 - z,
                {
                    r.push(0);
                    proof {
                        assert(r@ =~= mid + Seq::new((z + 1) as nat, |i: int| 0u8));
                    }
                    z = z + 1;
                }
                extend_bytes(&mut r, a.as_bytes());
                proof {
                    assert(r@ =~= mid + abi_word(args@[j as int]));
                }
            },
            Token::Uint(w) => {
                extend_bytes(&mut r, w.as_bytes());
            },
        }
        proof {
            assert(args@.take(j + 1).drop_last() =~= args@.take(j as int));
            assert(args@.take(j + 1).last() == args@[j as int]);
            assert(r@ =~= encode_args_spec(args@.take(j + 1)));
        }
        j = j + 1;
    }
    proof {
        assert(args@.take(args@.len() as int) =~= args@);
    }
    r
}

/// Builds the byte payload invoking the named function with the given
/// arguments: the selector of the declared signature followed by the
/// ABI-encoded arguments.
pub fn encode_call(iface: &Interface, name: &Vec<u8>, args: &Vec<Token>) -> (r: Result<
    Vec<u8>,
    EncodeError,
>)
    requires
        iface.wf(),
        forall|i: int| 0 <= i < args@.len() ==> token_wf(#[trigger] args@[i]),
    ensures
        r is Ok <==> exists|i: int|
            0 <= i < iface.functions@.len() && (#[trigger] iface.functions@[i]).name@ == name@
                && types_match(args@, iface.functions@[i].params@),
        r is Err ==> ((r.unwrap_err() is SignatureMismatch) <==> !has_fn(
            iface.functions@,
            name@,
        )),
        forall|i: int|
            0 <= i < iface.functions@.len() && (#[trigger] iface.functions@[i]).name@ == name@
                && types_match(args@, iface.functions@[i].params@) ==> r is Ok && r.unwrap()@
                == selector_spec(sig_of(iface.functions@[i])) + encode_args_spec(args@),
{
    let mut i: usize = 0;
    while i < iface.functions.len()
        invariant
            iface.wf(),
            forall|k: int| 0 <= k < args@.len() ==> token_wf(#[trigger] args@[k]),
            i <= iface.functions@.len(),
            forall|j: int| 0 <= j < i ==> (#[trigger] iface.functions@[j]).name@ != name@,
        decreases iface.functions@.len() - i,
    {
        if crate::bytes::bytes_eq(&iface.functions[i].name, name) {
            if !types_ok(args, &iface.functions[i].params) {
                return Err(EncodeError::ArgumentTypeMismatch);
            }
            let sig = signature_bytes(&iface.functions[i]);
            let mut payload = selector(&sig);
            let encoded = encode_args(args);
            extend_bytes(&mut payload, &encoded);
            return Ok(payload);
        }
        i = i + 1;
    }
    Err(EncodeError::SignatureMismatch)
}

} // verus!
