use vstd::prelude::*;
use itertools::Itertools;
use crate::annotations::{kind_key, AnalysisKind};
use crate::bytecode::{attr_of, bytecode_text};
use crate::env::local_name_of;
use crate::ids::{CodeOffset, Loc};
use crate::target::FunctionTarget;
use crate::text::{decimal, decimal_string, pad_left, push_padded};
use crate::ty::{type_text, Type};

verus! {

broadcast use vstd::std_specs::btree::group_btree_axioms, vstd::laws_cmp::group_laws_cmp;

/// `s` with every occurrence of `c` replaced by `to`.
pub open spec fn replace_char(s: Seq<char>, c: char, to: Seq<char>) -> Seq<char>
    decreases s.len(),
{
    if s.len() == 0 {
        Seq::empty()
    } else {
        replace_char(s.drop_last(), c, to) + (if s.last() == c { to } else { seq![s.last()] })
    }
}

/// The parts, with `sep` between each two of them.
pub open spec fn joined(parts: Seq<Seq<char>>, sep: Seq<char>) -> Seq<char>
    decreases parts.len(),
{
    if parts.len() == 0 {
        Seq::empty()
    } else if parts.len() == 1 {
        parts[0]
    } else {
        joined(parts.drop_last(), sep) + sep + parts.last()
    }
}

/// The texts of the strings.
pub open spec fn texts(v: Seq<String>) -> Seq<Seq<char>> {
    v.map_values(|s: String| s@)
}

proof fn lemma_replace_run(s: Seq<char>, c: char, to: Seq<char>, st: int, k: int)
    requires
        0 <= st <= k <= s.len(),
        forall|j: int| st <= j < k ==> s[j] != c,
    ensures
        replace_char(s.take(k), c, to) == replace_char(s.take(st), c, to) + s.subrange(st, k),
    decreases k - st,
{
    if k > st {
        lemma_replace_run(s, c, to, st, k - 1);
        assert(s.take(k).drop_last() =~= s.take(k - 1));
        assert(s.take(k).last() == s[k - 1]);
        assert(s.subrange(st, k) =~= s.subrange(st, k - 1).push(s[k - 1]));
        assert(replace_char(s.take(k), c, to) =~= replace_char(s.take(st), c, to) + s.subrange(st, k));
    } else {
        assert(s.subrange(st, k) =~= Seq::<char>::empty());
        assert(replace_char(s.take(st), c, to) + s.subrange(st, k) =~= replace_char(s.take(st), c, to));
    }
}

/// `s` with every occurrence of `c` replaced by `to`.
fn replace_all(s: &str, c: char, to: &str) -> (r: String)
    ensures
        r@ == replace_char(s@, c, to@),
{
    let len = s.unicode_len();
    let mut out = String::new();
    let mut st: usize = 0;
    let mut i: usize = 0;
    assert(s@.take(0) =~= Seq::<char>::empty());
    while i < len
        invariant
            len == s@.len(),
            st <= i <= len,
            out@ == replace_char(s@.take(st as int), c, to@),
            forall|j: int| st <= j < i ==> s@[j] != c,
        decreases len - i,
    {
        if s.get_char(i) == c {
            out.append(s.substring_char(st, i));
            out.append(to);
            proof {
                lemma_replace_run(s@, c, to@, st as int, i as int);
                let t = s@.take(i + 1);
                assert(t.drop_last() =~= s@.take(i as int));
                assert(t.last() == c);
            }
            st = i + 1;
        }
        i = i + 1;
    }
    out.append(s.substring_char(st, len));
    proof {
        lemma_replace_run(s@, c, to@, st as int, len as int);
        assert(s@.take(len as int) =~= s@);
    }
    out
}

/// Relies on `Itertools::join`: the items' texts with `sep` between each two.
#[verifier::external_body]
fn join_all(parts: &Vec<String>, sep: &str) -> (r: String)
    ensures
        r@ == joined(texts(parts@), sep@),
{
    parts.iter().join(sep)
}

/// The type parameters, as shown after the function's name.
pub open spec fn type_params_text(names: Seq<String>) -> Seq<char> {
    if names.len() == 0 {
        Seq::empty()
    } else {
        "<"@ + joined(texts(names), ", "@) + ">"@
    }
}

/// The first `n` parameters, as shown in the signature.
pub open spec fn params_text(names: Seq<String>, types: Seq<Type>, n: nat) -> Seq<char>
    decreases n,
{
    if n == 0 {
        Seq::empty()
    } else {
        params_text(names, types, (n - 1) as nat) + (if n > 1 { ", "@ } else { Seq::empty() })
            + local_name_of(names, (n - 1) as nat) + ": "@ + type_text(types[n - 1])
    }
}

/// The first `n` types, separated by commas.
pub open spec fn types_text(types: Seq<Type>, n: nat) -> Seq<char>
    decreases n,
{
    if n == 0 {
        Seq::empty()
    } else {
        types_text(types, (n - 1) as nat) + (if n > 1 { ", "@ } else { Seq::empty() }) + type_text(
            types[n - 1],
        )
    }
}

/// The returned types, as shown in the signature.
pub open spec fn returns_text(types: Seq<Type>) -> Seq<char> {
    if types.len() == 0 {
        Seq::empty()
    } else if types.len() == 1 {
        ": "@ + types_text(types, 1)
    } else {
        ": "@ + "("@ + types_text(types, types.len()) + ")"@
    }
}

/// The signature line of a function.
pub open spec fn header_text(t: FunctionTarget) -> Seq<char> {
    name_text(t) + "("@ + params_text(
        t.func_env.local_names@,
        t.data.local_types@,
        t.func_env.parameter_count as nat,
    ) + ")"@ + returns_text(t.data.return_types@) + " {\n"@
}

/// The visibility, qualified name and type parameters of a function.
pub open spec fn name_text(t: FunctionTarget) -> Seq<char> {
    (if t.func_env.public { "pub "@ } else { Seq::empty() }) + "fun "@ + t.func_env.module_env.name@
        + "::"@ + t.func_env.name@ + type_params_text(t.func_env.type_params@)
}

/// The declarations of the locals from `from` up to `to`.
pub open spec fn locals_text(t: FunctionTarget, from: nat, to: nat) -> Seq<char>
    decreases to,
{
    if to <= from {
        Seq::empty()
    } else {
        locals_text(t, from, (to - 1) as nat) + "     var "@ + local_name_of(
            t.func_env.local_names@,
            (to - 1) as nat,
        ) + ": "@ + type_text(t.data.local_types@[to - 1]) + "\n"@
    }
}

/// The fact that the analysis `kind` recorded at `offset`, if any.
pub open spec fn fact_text(t: FunctionTarget, kind: AnalysisKind, offset: CodeOffset) -> Option<
    Seq<char>,
> {
    let store = t.data.annotations@;
    if store.contains_key(kind_key(kind)) && store[kind_key(kind)].facts@.contains_key(offset) {
        Some(store[kind_key(kind)].facts@[offset]@)
    } else {
        None
    }
}

/// The comments that the first `n` formatters give at `offset`.
pub open spec fn comment_parts(t: FunctionTarget, offset: CodeOffset, n: nat) -> Seq<Seq<char>>
    decreases n,
{
    if n == 0 {
        Seq::empty()
    } else {
        comment_parts(t, offset, (n - 1) as nat) + match fact_text(
            t,
            t.annotation_formatters@[n - 1],
            offset,
        ) {
            Some(s) => seq!["     // "@ + replace_char(s, '\n', "\n     // "@)],
            None => Seq::empty(),
        }
    }
}

/// The annotation comments shown above the instruction at `offset`.
pub open spec fn annotation_block(t: FunctionTarget, offset: CodeOffset) -> Seq<char> {
    let j = joined(comment_parts(t, offset, t.annotation_formatters@.len()), "\n"@);
    if j.len() > 0 {
        j + "\n"@
    } else {
        Seq::empty()
    }
}

/// The location of the instruction at `i`, if it is a proposition with a location.
pub open spec fn prop_loc(t: FunctionTarget, i: int) -> Option<Loc> {
    let b = t.data.code@[i];
    if b is Prop && t.data.locations@.contains_key(attr_of(b)) {
        Some(t.data.locations@[attr_of(b)])
    } else {
        None
    }
}

/// The locations of the propositions before offset `n`.
pub open spec fn shown_before(t: FunctionTarget, n: int) -> Set<Loc> {
    Set::new(|l: Loc| exists|j: int| 0 <= j < n && #[trigger] prop_loc(t, j) == Some(l))
}

/// The comments on the first `n` verification conditions at `loc`.
pub open spec fn vc_lines(infos: Seq<(Loc, String, String)>, loc: Loc, n: nat) -> Seq<char>
    decreases n,
{
    if n == 0 {
        Seq::empty()
    } else {
        vc_lines(infos, loc, (n - 1) as nat) + (if infos[n - 1].0 == loc {
            "     // VC: "@ + infos[n - 1].2@ + " for "@ + infos[n - 1].1@ + "\n"@
        } else {
            Seq::empty()
        })
    }
}

/// The verification conditions shown above the instruction at `i`: those at its
/// location, for the first proposition at that location.
pub open spec fn vc_block(t: FunctionTarget, i: int) -> Seq<char> {
    match prop_loc(t, i) {
        Some(l) => if shown_before(t, i).contains(l) {
            Seq::empty()
        } else {
            let infos = t.func_env.module_env.env.condition_infos@;
            vc_lines(infos, l, infos.len())
        },
        None => Seq::empty(),
    }
}

/// The lines of the instruction at `i`, with what is shown above it.
pub open spec fn instr_block(t: FunctionTarget, i: int) -> Seq<char> {
    annotation_block(t, i as CodeOffset) + vc_block(t, i) + pad_left(decimal(i as nat), 3) + ": "@
        + bytecode_text(t.data.code@[i]) + "\n"@
}

/// The lines of the first `n` instructions.
pub open spec fn code_text(t: FunctionTarget, n: nat) -> Seq<char>
    decreases n,
{
    if n == 0 {
        Seq::empty()
    } else {
        code_text(t, (n - 1) as nat) + instr_block(t, n - 1)
    }
}

/// The listing of a function.
pub open spec fn listing_text(t: FunctionTarget) -> Seq<char> {
    header_text(t) + locals_text(t, t.func_env.parameter_count as nat, t.data.local_types@.len())
        + code_text(t, t.data.code@.len()) + "}\n"@
}

fn contains_loc(v: &Vec<Loc>, l: Loc) -> (r: bool)
    ensures
        r == v@.contains(l),
{
    for i in 0..v.len()
        invariant
            forall|j: int| 0 <= j < i ==> v@[j] != l,
    {
        if v[i] == l {
            return true;
        }
    }
    false
}

impl<'env> FunctionTarget<'env> {
    /// The fact that the analysis `kind` recorded at `offset`, if any.
    pub fn format_annotation(&self, kind: AnalysisKind, offset: CodeOffset) -> (r: Option<&String>)
        ensures
            match r {
                Some(s) => fact_text(*self, kind, offset) == Some(s@),
                None => fact_text(*self, kind, offset) is None,
            },
    {
        match self.data.annotations.get(kind) {
            Some(a) => a.fact_at(offset),
            None => None,
        }
    }

    fn push_params(&self, out: &mut String)
        requires
            self.func_env.parameter_count <= self.data.local_types@.len(),
        ensures
            final(out)@ == old(out)@ + params_text(self.func_env.local_names@, self.data.local_types@,
                self.func_env.parameter_count as nat),
    {
        let ghost start = out@;
        let pc = self.get_parameter_count();
        assert(out@ =~= start + params_text(self.func_env.local_names@, self.data.local_types@, 0));
        for i in 0..pc
            invariant
                pc == self.func_env.parameter_count,
                pc <= self.data.local_types@.len(),
                out@ == start + params_text(self.func_env.local_names@, self.data.local_types@, i as nat),
        {
            if i > 0 {
                out.append(", ");
            }
            let name = self.get_local_name(i);
            out.append(name.as_str());
            out.append(": ");
            self.get_local_type(i).push_text(out);
            assert(out@ =~= start + params_text(self.func_env.local_names@, self.data.local_types@, (i + 1) as nat));
        }
    }

    fn push_returns(&self, out: &mut String)
        ensures
            final(out)@ == old(out)@ + returns_text(self.data.return_types@),
    {
        let ghost start = out@;
        let rc = self.get_return_count();
        if rc > 0 {
            out.append(": ");
            if rc > 1 {
                out.append("(");
            }
            let ghost mid = out@;
            assert(out@ =~= mid + types_text(self.data.return_types@, 0));
            for i in 0..rc
                invariant
                    rc == self.data.return_types@.len(),
                    out@ == mid + types_text(self.data.return_types@, i as nat),
            {
                if i > 0 {
                    out.append(", ");
                }
                self.get_return_type(i).push_text(out);
                assert(out@ =~= mid + types_text(self.data.return_types@, (i + 1) as nat));
            }
            if rc > 1 {
                out.append(")");
            }
        }
        assert(out@ =~= start + returns_text(self.data.return_types@));
    }

    fn push_name(&self, out: &mut String)
        ensures
            final(out)@ == old(out)@ + name_text(*self),
    {
        let ghost start = out@;
        if self.is_public() {
            out.append("pub ");
        }
        out.append("fun ");
        out.append(self.func_env.module_env.name.as_str());
        out.append("::");
        out.append(self.get_name().as_str());
        let ghost mid = out@;
        let tparams = self.get_type_parameters();
        if tparams.len() > 0 {
            out.append("<");
            let j = join_all(tparams, ", ");
            out.append(j.as_str());
            out.append(">");
        }
        assert(out@ =~= mid + type_params_text(self.func_env.type_params@));
        assert(out@ =~= start + name_text(*self));
    }

    fn push_header(&self, out: &mut String)
        requires
            self.func_env.parameter_count <= self.data.local_types@.len(),
        ensures
            final(out)@ == old(out)@ + header_text(*self),
    {
        let ghost start = out@;
        self.push_name(out);
        out.append("(");
        self.push_params(out);
        out.append(")");
        self.push_returns(out);
        out.append(" {\n");
        assert(out@ =~= start + header_text(*self));
    }

    fn push_locals(&self, out: &mut String)
        requires
            self.func_env.parameter_count <= self.data.local_types@.len(),
        ensures
            final(out)@ == old(out)@ + locals_text(*self, self.func_env.parameter_count as nat,
                self.data.local_types@.len()),
    {
        let ghost start = out@;
        let pc = self.get_parameter_count();
        let n = self.get_local_count();
        assert(locals_text(*self, pc as nat, pc as nat) == Seq::<char>::empty());
        assert(out@ =~= start + locals_text(*self, pc as nat, pc as nat));
        for i in pc..n
            invariant
                pc == self.func_env.parameter_count,
                n == self.data.local_types@.len(),
                out@ == start + locals_text(*self, pc as nat, i as nat),
        {
            out.append("     var ");
            let name = self.get_local_name(i);
            out.append(name.as_str());
            out.append(": ");
            self.get_local_type(i).push_text(out);
            out.append("\n");
            assert(out@ =~= start + locals_text(*self, pc as nat, (i + 1) as nat));
        }
    }

    fn push_annotation_block(&self, out: &mut String, offset: CodeOffset)
        ensures
            final(out)@ == old(out)@ + annotation_block(*self, offset),
    {
        let mut parts: Vec<String> = Vec::new();
        let n = self.annotation_formatters.len();
        for k in 0..n
            invariant
                n == self.annotation_formatters@.len(),
                texts(parts@) == comment_parts(*self, offset, k as nat),
        {
            let kind = self.annotation_formatters[k];
            match self.format_annotation(kind, offset) {
                Some(s) => {
                    let mut line = String::from_str("     // ");
                    let cont = replace_all(s.as_str(), '\n', "\n     // ");
                    line.append(cont.as_str());
                    parts.push(line);
                },
                None => {},
            }
            assert(texts(parts@) =~= comment_parts(*self, offset, (k + 1) as nat));
        }
        let j = join_all(&parts, "\n");
        if j.as_str().unicode_len() > 0 {
            out.append(j.as_str());
            out.append("\n");
        }
        assert(final(out)@ =~= old(out)@ + annotation_block(*self, offset));
    }

    fn push_vc_lines(&self, out: &mut String, loc: Loc)
        ensures
            final(out)@ == old(out)@ + vc_lines(self.func_env.module_env.env.condition_infos@, loc,
                self.func_env.module_env.env.condition_infos@.len()),
    {
        let infos = &self.global_env().condition_infos;
        let ghost start = out@;
        for i in 0..infos.len()
            invariant
                infos == &self.func_env.module_env.env.condition_infos,
                out@ == start + vc_lines(infos@, loc, i as nat),
        {
            if infos[i].0 == loc {
                out.append("     // VC: ");
                out.append(infos[i].2.as_str());
                out.append(" for ");
                out.append(infos[i].1.as_str());
                out.append("\n");
            }
            assert(out@ =~= start + vc_lines(infos@, loc, (i + 1) as nat));
        }
    }

    fn push_instr(&self, out: &mut String, shown: &mut Vec<Loc>, offset: CodeOffset)
        requires
            offset < self.data.code@.len(),
            forall|l: Loc| #[trigger] old(shown)@.contains(l) == shown_before(*self, offset as int).contains(l),
        ensures
            final(out)@ == old(out)@ + instr_block(*self, offset as int),
            forall|l: Loc| #[trigger] final(shown)@.contains(l) == shown_before(*self, offset + 1).contains(l),
    {
        let ghost start = out@;
        let ghost shown0 = shown@;
        self.push_annotation_block(out, offset);
        let ghost mid1 = out@;
        let b = self.data.code[offset];
        let ghost sb = shown_before(*self, offset as int);
        let ghost sb2 = shown_before(*self, offset + 1);
        match self.data.locations.get(&b.get_attr_id()) {
            Some(loc) => {
                if b.is_prop() {
                    assert(prop_loc(*self, offset as int) == Some(*loc));
                    if !contains_loc(shown, *loc) {
                        shown.push(*loc);
                        assert(shown@[shown@.len() - 1] == *loc);
                        self.push_vc_lines(out, *loc);
                    }
                    assert(shown@.contains(*loc));
                } else {
                    assert(prop_loc(*self, offset as int) is None);
                }
            },
            None => {
                assert(prop_loc(*self, offset as int) is None);
            },
        }
        assert(out@ =~= mid1 + vc_block(*self, offset as int));
        proof {
            assert forall|l: Loc| #[trigger] shown@.contains(l) == sb2.contains(l) by {
                if sb2.contains(l) {
                    let j = choose|j: int| 0 <= j < offset + 1 && #[trigger] prop_loc(*self, j) == Some(l);
                    if j < offset {
                        assert(sb.contains(l));
                        assert(shown0.contains(l));
                        let k = choose|k: int| 0 <= k < shown0.len() && shown0[k] == l;
                        assert(shown@[k] == l);
                    } else {
                        assert(prop_loc(*self, offset as int) == Some(l));
                    }
                }
                if shown@.contains(l) {
                    let k = choose|k: int| 0 <= k < shown@.len() && shown@[k] == l;
                    if k < shown0.len() {
                        assert(shown0[k] == l);
                        assert(shown0.contains(l));
                        assert(sb.contains(l));
                        let j = choose|j: int| 0 <= j < offset && #[trigger] prop_loc(*self, j) == Some(l);
                        assert(sb2.contains(l));
                    } else {
                        assert(prop_loc(*self, offset as int) == Some(l));
                        assert(sb2.contains(l));
                    }
                }
            }
        }
        let num = decimal_string(offset);
        push_padded(out, &num, 3);
        out.append(": ");
        b.push_text(out);
        out.append("\n");
        assert(out@ =~= start + instr_block(*self, offset as int));
    }

    /// The listing of this function: its signature, its locals, and each instruction
    /// with the annotation comments and verification conditions shown above it.
    pub fn to_string(&self) -> (r: String)
        requires
            self.func_env.parameter_count <= self.data.local_types@.len(),
        ensures
            r@ == listing_text(*self),
    {
        let mut out = String::new();
        self.push_header(&mut out);
        self.push_locals(&mut out);
        let ghost start = out@;
        let mut shown: Vec<Loc> = Vec::new();
        let n = self.data.code.len();
        for offset in 0..n
            invariant
                n == self.data.code@.len(),
                out@ == start + code_text(*self, offset as nat),
                forall|l: Loc| #[trigger] shown@.contains(l) == shown_before(*self, offset as int).contains(l),
        {
            self.push_instr(&mut out, &mut shown, offset);
            assert(out@ =~= start + code_text(*self, (offset + 1) as nat));
        }
        out.append("}\n");
        assert(out@ =~= listing_text(*self));
        out
    }
}

} // verus!
