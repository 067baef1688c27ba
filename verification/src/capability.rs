use vstd::prelude::*;

use crate::text::{ascii_lower, lower_seq, seq_distinct};

verus! {

/// The capability-interface name for one owning type.
pub open spec fn spec_trait_name(owner: Seq<char>) -> Seq<char> {
    "TestDataProviderFor"@ + owner
}

/// The name of the capability interface that the owning type must satisfy
/// when one of its fields delegates generation.
pub fn trait_name_for(owner: &String) -> (r: String)
    ensures
        r@ == spec_trait_name(owner@),
{
    let mut out = "TestDataProviderFor".to_owned();
    out.append(owner.as_str());
    out
}

/// A field name as it stands in a capability key: present for named fields,
/// absent for positional ones.
pub open spec fn opt_name_view(o: Option<String>) -> Option<Seq<char>> {
    match o {
        Some(s) => Some(s@),
        None => None,
    }
}

/// The deterministic capability method name for one field: named fields key
/// by field name, positional fields by the lowercased type-head name.
pub open spec fn spec_method_name(field_name: Option<Seq<char>>, head: Seq<char>) -> Seq<char> {
    match field_name {
        Some(f) => "generate_"@ + f,
        None => "generate_random_"@ + lower_seq(head),
    }
}

pub fn method_name_for(field_name: &Option<String>, head: &String) -> (r: String)
    ensures
        r@ == spec_method_name(opt_name_view(*field_name), head@),
{
    match field_name {
        Some(f) => {
            let mut out = "generate_".to_owned();
            out.append(f.as_str());
            out
        },
        None => {
            let mut out = "generate_random_".to_owned();
            let lowered = ascii_lower(head.as_str());
            out.append(lowered.as_str());
            out
        },
    }
}

/// One required capability-interface method: its deterministic name and the
/// field type (in normalized textual form) that the method must return.
#[derive(Debug)]
pub struct CapabilityMethod {
    pub name: String,
    pub return_type: String,
}

/// The capability requirements accumulated while one owning type is
/// processed: a deduplicating mapping keyed by method name, kept in
/// first-registration order.  The mapping is scoped to one type's
/// processing pass and discarded when that pass completes.
#[derive(Debug)]
pub struct CapabilityRequirements {
    pub entries: Vec<CapabilityMethod>,
}

/// The method names after one registration: a name already present leaves
/// the key set unchanged, a new one is appended.
pub open spec fn spec_names_after(names: Seq<Seq<char>>, name: Seq<char>) -> Seq<Seq<char>> {
    if names.contains(name) {
        names
    } else {
        names.push(name)
    }
}

impl CapabilityRequirements {
    /// Method names, in first-registration order.
    pub open spec fn names(&self) -> Seq<Seq<char>> {
        self.entries@.map_values(|m: CapabilityMethod| m.name@)
    }

    /// Well-formedness: no two entries share a name.
    pub open spec fn wf(&self) -> bool {
        forall|i: int, j: int|
            0 <= i < j < self.entries@.len() ==> self.entries@[i].name@ != self.entries@[j].name@
    }

    pub open spec fn contains_name(&self, n: Seq<char>) -> bool {
        exists|i: int| 0 <= i < self.entries@.len() && self.entries@[i].name@ == n
    }

    pub open spec fn index_of_name(&self, n: Seq<char>) -> int {
        choose|i: int| 0 <= i < self.entries@.len() && self.entries@[i].name@ == n
    }

    /// The return type registered under a name.
    pub open spec fn return_type_of(&self, n: Seq<char>) -> Seq<char> {
        self.entries@[self.index_of_name(n)].return_type@
    }

    pub fn new() -> (r: Self)
        ensures
            r.wf(),
            r.entries@.len() == 0,
    {
        CapabilityRequirements { entries: Vec::new() }
    }

    pub fn len(&self) -> (n: usize)
        ensures
            n == self.entries@.len(),
    {
        self.entries.len()
    }

    pub fn is_empty(&self) -> (r: bool)
        ensures
            r == (self.entries@.len() == 0),
    {
        self.entries.len() == 0
    }

    /// Register one required method.  Registration is keyed by name: a name
    /// already present keeps its place and takes the new return type; a new
    /// name is appended.  Registering the same name again therefore never
    /// adds a second method.
    pub fn register(&mut self, name: String, return_type: String)
        requires
            old(self).wf(),
        ensures
            final(self).wf(),
            final(self).names() == spec_names_after(old(self).names(), name@),
            final(self).contains_name(name@),
            final(self).return_type_of(name@) == return_type@,
            forall|n: Seq<char>|
                n != name@ ==> (final(self).contains_name(n) <==> old(self).contains_name(n)),
            forall|n: Seq<char>|
                n != name@ && old(self).contains_name(n) ==> final(self).return_type_of(n)
                    == old(self).return_type_of(n),
    {
        let ghost orig = *self;
        let mut i: usize = 0;
        while i < self.entries.len()
            invariant
                *self == orig,
                orig == *old(self),
                orig.wf(),
                i <= self.entries@.len(),
                forall|j: int| 0 <= j < i ==> self.entries@[j].name@ != name@,
            decreases self.entries@.len() - i,
        {
            if self.entries[i].name == name {
                let ghost idx = i as int;
                let ghost n_view = name@;
                let ghost r_view = return_type@;
                self.entries[i] = CapabilityMethod { name, return_type };
                proof {
                    lemma_register_update(orig, *self, idx, n_view, r_view);
                }
                return ;
            }
            i = i + 1;
        }
        self.entries.push(CapabilityMethod { name, return_type });
        proof {
            lemma_register_push(orig, *self, name@, return_type@);
        }
    }
}

/// After an in-place overwrite of the entry at `idx` with an entry of the
/// same name, the requirements keep their keys and order.
proof fn lemma_register_update(
    pre: CapabilityRequirements,
    post: CapabilityRequirements,
    idx: int,
    name: Seq<char>,
    ret: Seq<char>,
)
    requires
        pre.wf(),
        0 <= idx < pre.entries@.len(),
        pre.entries@[idx].name@ == name,
        post.entries@ == pre.entries@.update(idx, post.entries@[idx]),
        post.entries@[idx].name@ == name,
        post.entries@[idx].return_type@ == ret,
    ensures
        post.wf(),
        post.names() == spec_names_after(pre.names(), name),
        post.contains_name(name),
        post.return_type_of(name) == ret,
        forall|n: Seq<char>| n != name ==> (post.contains_name(n) <==> pre.contains_name(n)),
        forall|n: Seq<char>|
            n != name && pre.contains_name(n) ==> post.return_type_of(n) == pre.return_type_of(n),
{
    assert(forall|k: int|
        0 <= k < post.entries@.len() ==> post.entries@[k].name@ == pre.entries@[k].name@);
    assert(post.names() =~= pre.names());
    assert(pre.names()[idx] == name);
    assert(pre.names().contains(name));
    assert(post.wf());
    assert(post.contains_name(name));
    assert forall|n: Seq<char>| n != name implies (post.contains_name(n) <==> pre.contains_name(
        n,
    )) by {
        if post.contains_name(n) {
            let k = choose|k: int|
                0 <= k < post.entries@.len() && post.entries@[k].name@ == n;
            assert(pre.entries@[k].name@ == n);
            assert(pre.contains_name(n));
        }
        if pre.contains_name(n) {
            let k = choose|k: int| 0 <= k < pre.entries@.len() && pre.entries@[k].name@ == n;
            assert(post.entries@[k].name@ == n);
            assert(post.contains_name(n));
        }
    }
    assert forall|k: int| 0 <= k < post.entries@.len() && post.entries@[k].name@ == name implies k
        == idx by {
        if k != idx {
            assert(pre.entries@[k].name@ == pre.entries@[idx].name@);
        }
    }
    assert(post.index_of_name(name) == idx);
    assert forall|n: Seq<char>| n != name && pre.contains_name(n) implies post.return_type_of(n)
        == pre.return_type_of(n) by {
        let k = pre.index_of_name(n);
        assert(0 <= k < pre.entries@.len() && pre.entries@[k].name@ == n);
        assert(k != idx);
        assert(post.entries@[k].name@ == n);
        assert(post.contains_name(n));
        let k2 = post.index_of_name(n);
        assert(0 <= k2 < post.entries@.len() && post.entries@[k2].name@ == n);
        assert(k2 != idx);
        assert(pre.entries@[k2].name@ == n);
        assert(k2 == k);
    }
}

/// After appending an entry whose name was not yet present, the
/// requirements gain exactly that key, at the end.
proof fn lemma_register_push(
    pre: CapabilityRequirements,
    post: CapabilityRequirements,
    name: Seq<char>,
    ret: Seq<char>,
)
    requires
        pre.wf(),
        post.entries@.len() == pre.entries@.len() + 1,
        post.entries@ == pre.entries@.push(post.entries@.last()),
        post.entries@.last().name@ == name,
        post.entries@.last().return_type@ == ret,
        forall|j: int| 0 <= j < pre.entries@.len() ==> pre.entries@[j].name@ != name,
    ensures
        post.wf(),
        post.names() == spec_names_after(pre.names(), name),
        post.contains_name(name),
        post.return_type_of(name) == ret,
        forall|n: Seq<char>| n != name ==> (post.contains_name(n) <==> pre.contains_name(n)),
        forall|n: Seq<char>|
            n != name && pre.contains_name(n) ==> post.return_type_of(n) == pre.return_type_of(n),
{
    let len = pre.entries@.len() as int;
    assert(forall|k: int| 0 <= k < len ==> post.entries@[k] == pre.entries@[k]);
    assert(post.wf());
    if pre.names().contains(name) {
        let w = choose|k: int| 0 <= k < pre.names().len() && pre.names()[k] == name;
        assert(pre.entries@[w].name@ == name);
        assert(false);
    }
    assert(post.names() =~= pre.names().push(name));
    assert(post.entries@[len].name@ == name);
    assert(post.contains_name(name));
    assert forall|k: int| 0 <= k < post.entries@.len() && post.entries@[k].name@ == name implies k
        == len by {
        if k < len {
            assert(pre.entries@[k].name@ == name);
        }
    }
    assert(post.index_of_name(name) == len);
    assert forall|n: Seq<char>| n != name && pre.contains_name(n) implies post.return_type_of(n)
        == pre.return_type_of(n) by {
        let k = pre.index_of_name(n);
        assert(0 <= k < len && pre.entries@[k].name@ == n);
        assert(post.entries@[k].name@ == n);
        assert(post.contains_name(n));
        let k2 = post.index_of_name(n);
        assert(0 <= k2 < post.entries@.len() && post.entries@[k2].name@ == n);
        assert(k2 != len);
        assert(k2 == k);
    }
    assert forall|n: Seq<char>| n != name implies (post.contains_name(n) <==> pre.contains_name(
        n,
    )) by {
        if post.contains_name(n) {
            let k = choose|k: int|
                0 <= k < post.entries@.len() && post.entries@[k].name@ == n;
            assert(k != len);
            assert(pre.entries@[k].name@ == n);
            assert(pre.contains_name(n));
        }
        if pre.contains_name(n) {
            let k = choose|k: int| 0 <= k < pre.entries@.len() && pre.entries@[k].name@ == n;
            assert(post.entries@[k].name@ == n);
            assert(post.contains_name(n));
        }
    }
}

/// Law: registering the same capability method name twice for one type
/// yields exactly one capability-interface method, not two.  The key set
/// after a registration contains the name, a repeated registration leaves
/// the key set unchanged, and distinctness of the keys is preserved, so the
/// name keys exactly one method.
pub proof fn lemma_registration_idempotent(names: Seq<Seq<char>>, name: Seq<char>)
    ensures
        spec_names_after(names, name).contains(name),
        spec_names_after(spec_names_after(names, name), name) == spec_names_after(names, name),
        seq_distinct(names) ==> seq_distinct(spec_names_after(names, name)),
{
    if !names.contains(name) {
        assert(names.push(name)[names.len() as int] == name);
        assert(spec_names_after(names, name).contains(name));
        if seq_distinct(names) {
            assert forall|i: int, j: int|
                0 <= i < j < names.push(name).len() implies names.push(name)[i] != names.push(
                name,
            )[j] by {
                if j == names.len() as int {
                    if names.push(name)[i] == name {
                        assert(names[i] == name);
                        assert(names.contains(name));
                    }
                }
            }
        }
    }
}

/// The rendered declaration of one required capability method.
pub open spec fn spec_method_sig(name: Seq<char>, return_type: Seq<char>) -> Seq<char> {
    "fn "@ + name + "<R: rand::Rng + ?Sized>(rng: &mut R) -> "@ + return_type + "; "@
}

/// The rendered declarations of the methods from position `i` on, in
/// first-registration order.
pub open spec fn spec_method_sigs_from(entries: Seq<CapabilityMethod>, i: int) -> Seq<char>
    decreases entries.len() - i,
{
    if i < 0 || i >= entries.len() {
        Seq::empty()
    } else {
        spec_method_sig(entries[i].name@, entries[i].return_type@) + spec_method_sigs_from(
            entries,
            i + 1,
        )
    }
}

/// The capability-interface declaration for one owning type.
pub open spec fn spec_trait_decl(owner: Seq<char>, entries: Seq<CapabilityMethod>) -> Seq<char> {
    "pub trait "@ + spec_trait_name(owner) + " { "@ + spec_method_sigs_from(entries, 0) + "}"@
}

/// The rendered declaration of one required capability method.
pub fn method_sig(m: &CapabilityMethod) -> (r: String)
    ensures
        r@ == spec_method_sig(m.name@, m.return_type@),
{
    let mut out = "fn ".to_owned();
    out.append(m.name.as_str());
    out.append("<R: rand::Rng + ?Sized>(rng: &mut R) -> ");
    out.append(m.return_type.as_str());
    out.append("; ");
    out
}

fn method_sigs_from(entries: &Vec<CapabilityMethod>, i: usize) -> (r: String)
    requires
        i <= entries@.len(),
    ensures
        r@ == spec_method_sigs_from(entries@, i as int),
    decreases entries@.len() - i,
{
    if i == entries.len() {
        String::new()
    } else {
        let mut out = method_sig(&entries[i]);
        let rest = method_sigs_from(entries, i + 1);
        out.append(rest.as_str());
        out
    }
}

/// The capability-interface declaration for one owning type: `None` when no
/// field requested delegation (no interface is emitted then), else one
/// method per requirement, in first-registration order.
pub fn capability_trait_decl(owner: &String, reqs: &CapabilityRequirements) -> (r: Option<String>)
    ensures
        match r {
            Some(s) => reqs.entries@.len() > 0 && s@ == spec_trait_decl(owner@, reqs.entries@),
            None => reqs.entries@.len() == 0,
        },
{
    if reqs.is_empty() {
        return None;
    }
    let mut out = "pub trait ".to_owned();
    let tn = trait_name_for(owner);
    out.append(tn.as_str());
    out.append(" { ");
    let sigs = method_sigs_from(&reqs.entries, 0);
    out.append(sigs.as_str());
    out.append("}");
    Some(out)
}

} // verus!
