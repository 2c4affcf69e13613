use vstd::prelude::*;
use vstd::string::StringSliceAdditionalSpecFns;

use crate::amounts::Version;
use crate::chain::{program_address, program_address_of};
use crate::text::{replace, replace_all};
use crate::tx::{Address, Txn};

verus! {

/// The source of a TEAL program with placeholders to be filled in.
#[derive(Debug)]
pub struct TealSourceTemplate(pub Vec<u8>);

/// The source of a TEAL program.
#[derive(Debug)]
pub struct TealSource(pub Vec<u8>);

/// A compiled TEAL program.
#[derive(Debug)]
pub struct CompiledTeal(pub Vec<u8>);

/// A template with its version.
#[derive(Debug)]
pub struct VersionedTealSourceTemplate {
    pub version: Version,
    pub template: TealSourceTemplate,
}

/// A compiled program used as an account: transactions from its address are approved by
/// the program.
#[derive(Debug)]
pub struct ContractAccount {
    address: Address,
    program: CompiledTeal,
}

/// A contract account with the version of the template it was rendered from.
#[derive(Debug)]
pub struct VersionedContractAccount {
    pub version: Version,
    pub account: ContractAccount,
}

/// A transaction with the signature of a contract account: the program that approves it.
#[derive(Debug)]
pub struct SignedTxn {
    pub transaction: Txn,
    pub program: Vec<u8>,
}

/// The template filled in: each key replaced by its value, one key after the other.
pub open spec fn rendered(s: Seq<u8>, key_values: Seq<(Seq<u8>, Seq<u8>)>) -> Seq<u8>
    decreases key_values.len(),
{
    if key_values.len() == 0 {
        s
    } else {
        rendered(
            replace_all(s, key_values[0].0, key_values[0].1),
            key_values.subrange(1, key_values.len() as int),
        )
    }
}

/// The keys and values as byte sequences.
pub open spec fn key_values_view(kvs: Seq<(&str, Vec<u8>)>) -> Seq<(Seq<u8>, Seq<u8>)> {
    kvs.map_values(|kv: (&str, Vec<u8>)| (kv.0.spec_bytes(), kv.1@))
}

/// Fills in a template: replaces each key by its value, in the order given.
pub fn render_template_new(template: &TealSourceTemplate, key_values: &Vec<(&str, Vec<u8>)>) -> (r:
    TealSource)
    ensures
        r.0@ == rendered(template.0@, key_values_view(key_values@)),
{
    let ghost kvs = key_values_view(key_values@);
    let mut cur = copy_bytes(&template.0);
    let mut i: usize = 0;
    proof {
        assert(kvs.subrange(0, kvs.len() as int) =~= kvs);
    }
    while i < key_values.len()
        invariant
            i <= key_values.len(),
            kvs == key_values_view(key_values@),
            rendered(cur@, kvs.subrange(i as int, kvs.len() as int)) == rendered(
                template.0@,
                kvs,
            ),
        decreases key_values.len() - i,
    {
        let key = key_values[i].0;
        let val = &key_values[i].1;
        let ghost rest = kvs.subrange(i as int, kvs.len() as int);
        proof {
            assert(rest[0] == (key.spec_bytes(), val@));
            assert(rest.subrange(1, rest.len() as int) =~= kvs.subrange(i + 1, kvs.len() as int));
        }
        cur = replace(&cur, key.as_bytes(), val);
        i = i + 1;
    }
    proof {
        assert(kvs.subrange(i as int, kvs.len() as int) =~= Seq::<(Seq<u8>, Seq<u8>)>::empty());
    }
    TealSource(cur)
}

/// The placeholder of a field in a template with a context: the field's name in double braces.
pub open spec fn placeholder(name: Seq<u8>) -> Seq<u8> {
    seq![123u8, 123u8] + name + seq![125u8, 125u8]
}

/// The fields of a context as placeholders and values.
pub open spec fn context_view(context: Seq<(&str, Vec<u8>)>) -> Seq<(Seq<u8>, Seq<u8>)> {
    context.map_values(|kv: (&str, Vec<u8>)| (placeholder(kv.0.spec_bytes()), kv.1@))
}

/// The placeholder of a field name.
fn placeholder_bytes(name: &str) -> (r: Vec<u8>)
    ensures
        r@ == placeholder(name.spec_bytes()),
{
    let mut out: Vec<u8> = Vec::new();
    out.push(123u8);
    out.push(123u8);
    let bytes = name.as_bytes();
    let mut i: usize = 0;
    while i < bytes.len()
        invariant
            i <= bytes@.len(),
            bytes@ == name.spec_bytes(),
            out@ =~= seq![123u8, 123u8] + bytes@.subrange(0, i as int),
        decreases bytes@.len() - i,
    {
        out.push(bytes[i]);
        i = i + 1;
    }
    out.push(125u8);
    out.push(125u8);
    proof {
        assert(bytes@.subrange(0, bytes@.len() as int) =~= bytes@);
        assert(out@ =~= placeholder(name.spec_bytes()));
    }
    out
}

/// Fills in a template with a context of named fields: each field's placeholder (its name in
/// double braces) replaced by its value, in the order given.
pub fn render_template(template: &TealSourceTemplate, context: &Vec<(&str, Vec<u8>)>) -> (r:
    TealSource)
    ensures
        r.0@ == rendered(template.0@, context_view(context@)),
{
    let mut cur = copy_bytes(&template.0);
    let ghost kvs = context_view(context@);
    let mut i: usize = 0;
    proof {
        assert(kvs.subrange(0, kvs.len() as int) =~= kvs);
    }
    while i < context.len()
        invariant
            i <= context.len(),
            kvs == context_view(context@),
            rendered(cur@, kvs.subrange(i as int, kvs.len() as int)) == rendered(template.0@, kvs),
        decreases context.len() - i,
    {
        let key = placeholder_bytes(context[i].0);
        let val = &context[i].1;
        let ghost rest = kvs.subrange(i as int, kvs.len() as int);
        proof {
            assert(rest[0] == (key@, val@));
            assert(rest.subrange(1, rest.len() as int) =~= kvs.subrange(i + 1, kvs.len() as int));
        }
        cur = replace(&cur, key.as_slice(), val);
        i = i + 1;
    }
    proof {
        assert(kvs.subrange(i as int, kvs.len() as int) =~= Seq::<(Seq<u8>, Seq<u8>)>::empty());
    }
    TealSource(cur)
}

impl ContractAccount {
    #[verifier::type_invariant]
    spec fn has_program_address(self) -> bool {
        self.address == program_address_of(self.program.0@)
    }

    /// The compiled program of this account.
    pub closed spec fn program_bytes(self) -> Seq<u8> {
        self.program.0@
    }

    /// The contract account of a compiled program.
    pub fn new(program: CompiledTeal) -> (r: ContractAccount)
        ensures
            r.program_bytes() == program.0@,
    {
        let address = program_address(&program.0);
        ContractAccount { address, program }
    }

    /// The address of this account: the address of its program.
    pub fn address(&self) -> (r: &Address)
        ensures
            *r == program_address_of(self.program_bytes()),
    {
        proof {
            use_type_invariant(self);
        }
        &self.address
    }

    /// The compiled program of this account.
    pub fn program(&self) -> (r: &CompiledTeal)
        ensures
            r.0@ == self.program_bytes(),
    {
        &self.program
    }

    /// Signs a transaction with the program of this account.
    pub fn sign(&self, transaction: Txn) -> (r: SignedTxn)
        ensures
            r.transaction == transaction,
            r.program@ == self.program_bytes(),
    {
        SignedTxn { transaction, program: copy_bytes(&self.program.0) }
    }

    /// A copy of this account.
    pub fn copy(&self) -> (r: ContractAccount)
        ensures
            r.program_bytes() == self.program_bytes(),
    {
        proof {
            use_type_invariant(self);
        }
        ContractAccount { address: self.address, program: CompiledTeal(copy_bytes(&self.program.0)) }
    }
}

/// A copy of a byte vector.
pub fn copy_bytes(v: &Vec<u8>) -> (r: Vec<u8>)
    ensures
        r@ == v@,
{
    let mut out: Vec<u8> = Vec::new();
    let mut i: usize = 0;
    while i < v.len()
        invariant
            i <= v.len(),
            out@ =~= v@.subrange(0, i as int),
        decreases v.len() - i,
    {
        out.push(v[i]);
        i = i + 1;
    }
    proof {
        assert(v@.subrange(0, v.len() as int) =~= v@);
    }
    out
}

} // verus!
