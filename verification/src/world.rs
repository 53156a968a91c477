//! The simulation state container and the structural step phases.
//!
//! A step advances the world by one tick in two ordered phases: every field's
//! strength decays and fields whose influence has faded are pruned, then every
//! parameter's position and velocity are replaced by freshly integrated
//! values. The scalar arithmetic of both phases (decay, distances, falloff,
//! damping) happens outside the engine; the engine receives its outcome, one
//! record per field or parameter, and gives exact guarantees on how the
//! collections change: which fields survive, in what order, and that
//! integration touches nothing but each parameter's own motion state.

use vstd::prelude::*;

verus! {

/// A point in simulation space. The three components are opaque 64-bit
/// words; the embedding of real coordinates into those words is the caller's
/// choice and the engine never interprets them.
#[derive(Clone, Copy, PartialEq, Eq, Structural, Debug)]
pub struct Vector3 {
    pub x: u64,
    pub y: u64,
    pub z: u64,
}

/// A decaying, radius-bounded spatial source of force and potential.
/// `strength`, `radius` and `decay` are opaque scalar words, like the
/// coordinate components of `Vector3`.
#[derive(Clone, Copy, PartialEq, Eq, Structural, Debug)]
pub struct ParameterField {
    pub position: Vector3,
    pub strength: u64,
    pub radius: u64,
    pub decay: u64,
}

/// A simulated point mass. `id` is caller-assigned identity, opaque to the
/// engine and not required to be unique; `mass` is carried but never read by
/// the integration law.
#[derive(Clone, Debug)]
pub struct Parameter {
    pub id: String,
    pub position: Vector3,
    pub velocity: Vector3,
    pub mass: u64,
}

/// The outcome of the decay computation for one field: its post-decay
/// strength, and whether the field still carries enough influence to stay in
/// the world.
#[derive(Clone, Copy, PartialEq, Eq, Structural, Debug)]
pub struct FieldUpdate {
    pub strength: u64,
    pub keep: bool,
}

/// The outcome of the force-integration computation for one parameter: the
/// position and velocity it holds after the step.
#[derive(Clone, Copy, PartialEq, Eq, Structural, Debug)]
pub struct MotionUpdate {
    pub position: Vector3,
    pub velocity: Vector3,
}

/// `f` with its strength replaced by `s`; everything else is kept.
pub open spec fn restrengthened(f: ParameterField, s: u64) -> ParameterField {
    ParameterField { position: f.position, strength: s, radius: f.radius, decay: f.decay }
}

/// The field collection after one decay phase: each field takes its
/// post-decay strength from the matching update, and exactly the fields whose
/// update says `keep` survive, in their original order.
pub open spec fn retained_fields(fs: Seq<ParameterField>, us: Seq<FieldUpdate>) -> Seq<
    ParameterField,
>
    decreases fs.len(),
{
    if fs.len() == 0 {
        Seq::empty()
    } else {
        let prefix = retained_fields(fs.drop_last(), us.drop_last());
        if us.last().keep {
            prefix.push(restrengthened(fs.last(), us.last().strength))
        } else {
            prefix
        }
    }
}

/// How many updates in `us` mark their field as surviving.
pub open spec fn kept_count(us: Seq<FieldUpdate>) -> nat
    decreases us.len(),
{
    if us.len() == 0 {
        0
    } else {
        kept_count(us.drop_last()) + if us.last().keep {
            1nat
        } else {
            0nat
        }
    }
}

/// `p` carried into the next tick: position and velocity come from the
/// update, identity and mass are untouched.
pub open spec fn moved(p: Parameter, u: MotionUpdate) -> Parameter {
    Parameter { id: p.id, position: u.position, velocity: u.velocity, mass: p.mass }
}

/// The parameter collection after one integration phase: the same parameters,
/// in the same order, each moved by its own update and by nothing else.
pub open spec fn integrated(ps: Seq<Parameter>, us: Seq<MotionUpdate>) -> Seq<Parameter> {
    Seq::new(ps.len(), |i: int| moved(ps[i], us[i]))
}

/// A mutable borrow of the parameter at index `i`.
fn param_at_mut(v: &mut Vec<Parameter>, i: usize) -> (element: &mut Parameter)
    requires
        i < old(v).len(),
    ensures
        *element == old(v)@[i as int],
        final(v)@ == old(v)@.update(i as int, *final(element)),
{
    &mut v[i]
}

/// The size of the contiguous chunk of the parameter collection each worker
/// receives in the parallel integration phase: an even share of the items,
/// but never an empty chunk.
pub open spec fn spec_chunk_size(items: nat, workers: nat) -> nat {
    if items / workers == 0 {
        1
    } else {
        items / workers
    }
}

/// Worker chunk size for `items` parameters on `workers` workers.
pub fn chunk_size(items: usize, workers: usize) -> (r: usize)
    requires
        workers > 0,
    ensures
        r == spec_chunk_size(items as nat, workers as nat),
        r >= 1,
{
    let q = items / workers;
    if q == 0 {
        1
    } else {
        q
    }
}

/// The mutable simulation state: the field and parameter collections in
/// insertion order, and the three tunables fixed at construction.
pub struct PhysicsWorld {
    pub fields: Vec<ParameterField>,
    pub parameters: Vec<Parameter>,
    pub time_step: u64,
    pub gravity_constant: u64,
    pub damping: u64,
}

impl PhysicsWorld {
    /// An empty world with the given tunables. No validation is performed:
    /// degenerate tunables are accepted and produce the corresponding
    /// degenerate dynamics.
    pub fn new(time_step: u64, gravity_constant: u64, damping: u64) -> (w: Self)
        ensures
            w.fields@ == Seq::<ParameterField>::empty(),
            w.parameters@ == Seq::<Parameter>::empty(),
            w.time_step == time_step,
            w.gravity_constant == gravity_constant,
            w.damping == damping,
    {
        PhysicsWorld {
            fields: Vec::new(),
            parameters: Vec::new(),
            time_step,
            gravity_constant,
            damping,
        }
    }

    /// Appends `field` to the field collection; no deduplication.
    pub fn add_field(&mut self, field: ParameterField)
        ensures
            final(self).fields@ == old(self).fields@.push(field),
            final(self).parameters@ == old(self).parameters@,
            final(self).time_step == old(self).time_step,
            final(self).gravity_constant == old(self).gravity_constant,
            final(self).damping == old(self).damping,
    {
        self.fields.push(field);
    }

    /// Appends `parameter` to the parameter collection; `id` uniqueness is
    /// not checked.
    pub fn add_parameter(&mut self, parameter: Parameter)
        ensures
            final(self).parameters@ == old(self).parameters@.push(parameter),
            final(self).fields@ == old(self).fields@,
            final(self).time_step == old(self).time_step,
            final(self).gravity_constant == old(self).gravity_constant,
            final(self).damping == old(self).damping,
    {
        self.parameters.push(parameter);
    }

    /// Empties the field collection.
    pub fn clear_fields(&mut self)
        ensures
            final(self).fields@ == Seq::<ParameterField>::empty(),
            final(self).parameters@ == old(self).parameters@,
            final(self).time_step == old(self).time_step,
            final(self).gravity_constant == old(self).gravity_constant,
            final(self).damping == old(self).damping,
    {
        self.fields.clear();
    }

    /// Empties the parameter collection.
    pub fn clear_parameters(&mut self)
        ensures
            final(self).parameters@ == Seq::<Parameter>::empty(),
            final(self).fields@ == old(self).fields@,
            final(self).time_step == old(self).time_step,
            final(self).gravity_constant == old(self).gravity_constant,
            final(self).damping == old(self).damping,
    {
        self.parameters.clear();
    }

    /// Decay phase of a step: installs each field's post-decay strength and
    /// prunes the fields whose influence has faded, keeping the survivors in
    /// their original order. `updates` carries the outcome of the scalar
    /// decay computation, one entry per field, aligned with the collection.
    pub fn apply_field_decay(&mut self, updates: &Vec<FieldUpdate>)
        requires
            updates@.len() == old(self).fields@.len(),
        ensures
            final(self).fields@ == retained_fields(old(self).fields@, updates@),
            final(self).parameters@ == old(self).parameters@,
            final(self).time_step == old(self).time_step,
            final(self).gravity_constant == old(self).gravity_constant,
            final(self).damping == old(self).damping,
    {
        let n = self.fields.len();
        let mut kept: Vec<ParameterField> = Vec::new();
        let mut i: usize = 0;
        while i < n
            invariant
                i <= n,
                n == self.fields@.len(),
                self.fields@ == old(self).fields@,
                self.parameters@ == old(self).parameters@,
                self.time_step == old(self).time_step,
                self.gravity_constant == old(self).gravity_constant,
                self.damping == old(self).damping,
                updates@.len() == n,
                kept@ == retained_fields(self.fields@.take(i as int), updates@.take(i as int)),
            decreases n - i,
        {
            let u = updates[i];
            if u.keep {
                let f = self.fields[i];
                kept.push(
                    ParameterField {
                        position: f.position,
                        strength: u.strength,
                        radius: f.radius,
                        decay: f.decay,
                    },
                );
            }
            proof {
                let fs = self.fields@;
                let us = updates@;
                let i = i as int;
                assert(fs.take(i + 1).drop_last() =~= fs.take(i));
                assert(us.take(i + 1).drop_last() =~= us.take(i));
                assert(fs.take(i + 1).last() == fs[i]);
                assert(us.take(i + 1).last() == us[i]);
            }
            i = i + 1;
        }
        proof {
            assert(self.fields@.take(n as int) =~= self.fields@);
            assert(updates@.take(n as int) =~= updates@);
        }
        self.fields = kept;
    }

    /// Integration phase of a step: installs each parameter's new position
    /// and velocity from its own update, touching nothing else — identity,
    /// mass, count and order are all preserved. `updates` carries the outcome
    /// of the force and motion computation, one entry per parameter, aligned
    /// with the collection.
    pub fn apply_parameter_updates(&mut self, updates: &Vec<MotionUpdate>)
        requires
            updates@.len() == old(self).parameters@.len(),
        ensures
            final(self).parameters@ == integrated(old(self).parameters@, updates@),
            final(self).fields@ == old(self).fields@,
            final(self).time_step == old(self).time_step,
            final(self).gravity_constant == old(self).gravity_constant,
            final(self).damping == old(self).damping,
    {
        let n = self.parameters.len();
        let mut i: usize = 0;
        while i < n
            invariant
                i <= n,
                n == self.parameters@.len(),
                updates@.len() == n,
                old(self).parameters@.len() == n,
                self.fields@ == old(self).fields@,
                self.time_step == old(self).time_step,
                self.gravity_constant == old(self).gravity_constant,
                self.damping == old(self).damping,
                forall|j: int|
                    0 <= j < i ==> self.parameters@[j] == moved(
                        old(self).parameters@[j],
                        updates@[j],
                    ),
                forall|j: int| i <= j < n ==> self.parameters@[j] == old(self).parameters@[j],
            decreases n - i,
        {
            let u = updates[i];
            let p = param_at_mut(&mut self.parameters, i);
            p.position = u.position;
            p.velocity = u.velocity;
            i = i + 1;
        }
        proof {
            assert(self.parameters@ =~= integrated(old(self).parameters@, updates@));
        }
    }

    /// Current number of fields.
    pub fn get_field_count(&self) -> (n: usize)
        ensures
            n == self.fields@.len(),
    {
        self.fields.len()
    }

    /// Current number of parameters.
    pub fn get_parameter_count(&self) -> (n: usize)
        ensures
            n == self.parameters@.len(),
    {
        self.parameters.len()
    }
}

/// The decay phase keeps exactly the fields whose update marks them as
/// surviving: the surviving collection has one entry per `keep` mark.
pub proof fn lemma_retained_len(fs: Seq<ParameterField>, us: Seq<FieldUpdate>)
    requires
        fs.len() == us.len(),
    ensures
        retained_fields(fs, us).len() == kept_count(us),
    decreases fs.len(),
{
    if fs.len() > 0 {
        lemma_retained_len(fs.drop_last(), us.drop_last());
    }
}

/// When every update marks its field as surviving, nothing is pruned.
pub proof fn lemma_kept_count_all_kept(us: Seq<FieldUpdate>)
    requires
        forall|j: int| 0 <= j < us.len() ==> us[j].keep,
    ensures
        kept_count(us) == us.len(),
    decreases us.len(),
{
    if us.len() > 0 {
        lemma_kept_count_all_kept(us.drop_last());
    }
}

/// Pruning law: when exactly one field's update marks it as pruned, the
/// decay phase removes exactly that one field — the field count decreases by
/// exactly one.
pub proof fn lemma_prune_removes_one(fs: Seq<ParameterField>, us: Seq<FieldUpdate>, i: int)
    requires
        fs.len() == us.len(),
        0 <= i < us.len(),
        !us[i].keep,
        forall|j: int| 0 <= j < us.len() && j != i ==> us[j].keep,
    ensures
        retained_fields(fs, us).len() == fs.len() - 1,
    decreases us.len(),
{
    lemma_retained_len(fs, us);
    if i == us.len() - 1 {
        lemma_kept_count_all_kept(us.drop_last());
    } else {
        lemma_prune_removes_one(fs.drop_last(), us.drop_last(), i);
    }
}

/// Locality law: the integration phase touches nothing but each parameter's
/// own motion state — the collection keeps its length and order, and every
/// parameter keeps its identity and mass. This is the guarantee that makes
/// per-parameter work independent and safe to fan out.
pub proof fn lemma_integration_preserves_identity(ps: Seq<Parameter>, us: Seq<MotionUpdate>)
    requires
        ps.len() == us.len(),
    ensures
        integrated(ps, us).len() == ps.len(),
        forall|i: int|
            0 <= i < ps.len() ==> integrated(ps, us)[i].id == ps[i].id && integrated(ps, us)[i].mass
                == ps[i].mass,
        forall|i: int|
            0 <= i < ps.len() ==> integrated(ps, us)[i].position == us[i].position && integrated(
                ps,
                us,
            )[i].velocity == us[i].velocity,
{
}

/// Chunk-independence law: integrating a parameter collection against a
/// matching update collection over two contiguous chunks separately and
/// concatenating the results gives the same collection as integrating in one
/// pass — so any contiguous partition of the collection, whatever the chunk
/// size or worker count, produces the same step outcome.
pub proof fn lemma_integration_chunk_independent(
    ps: Seq<Parameter>,
    us: Seq<MotionUpdate>,
    m: int,
)
    requires
        ps.len() == us.len(),
        0 <= m <= ps.len(),
    ensures
        integrated(ps, us) == integrated(ps.take(m), us.take(m)) + integrated(
            ps.skip(m),
            us.skip(m),
        ),
{
    assert(integrated(ps, us) =~= integrated(ps.take(m), us.take(m)) + integrated(
        ps.skip(m),
        us.skip(m),
    ));
}

} // verus!
