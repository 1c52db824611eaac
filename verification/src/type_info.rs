//! Type descriptors and the type catalog.
//!
//! A descriptor identifies a database type either by a resolved numeric
//! identifier (an OID) or by a named placeholder still awaiting resolution at
//! statement-preparation time, and carries the kind of the type: a simple
//! scalar, a composite with a declared ordered field list, or another shape
//! that this codec refuses to treat as a record.
//!
//! The catalog maps OIDs to descriptors.  It is an external capability of the
//! surrounding client library, threaded through decoding as an explicit
//! argument rather than held as ambient state.

use vstd::prelude::*;

verus! {

/// OID of the generic, untyped record type.
pub const RECORD_OID: u32 = 2249;

/// OID of the boolean type.
pub const BOOL_OID: u32 = 16;

/// OID of the four-byte integer type.
pub const INT4_OID: u32 = 23;

/// OID of the text type.
pub const TEXT_OID: u32 = 25;

/// How a descriptor identifies its type: by a resolved OID, or by a declared
/// name whose OID becomes known only when the statement is prepared.
pub enum PgTypeIdent {
    Oid(u32),
    DeclareWithName(String),
}

/// One declared field of a composite type: its name and its descriptor.
pub struct PgField {
    pub name: String,
    pub ty: PgTypeInfo,
}

/// The kind of a database type.  Only the generic record type and `Composite`
/// are legal targets for record decoding.
pub enum PgTypeKind {
    Simple,
    Composite(Vec<PgField>),
    Array,
    Range,
    Enumeration,
}

/// A type descriptor: an identifier together with the type's kind.
pub struct PgTypeInfo {
    pub ident: PgTypeIdent,
    pub kind: PgTypeKind,
}

impl PgTypeInfo {
    /// The numeric identifier a descriptor writes on the wire; a named
    /// placeholder has no OID yet and reads as 0.
    pub open spec fn spec_oid(self) -> u32 {
        match self.ident {
            PgTypeIdent::Oid(o) => o,
            PgTypeIdent::DeclareWithName(_) => 0,
        }
    }

    pub fn oid(&self) -> (r: u32)
        ensures
            r == self.spec_oid(),
    {
        match &self.ident {
            PgTypeIdent::Oid(o) => *o,
            PgTypeIdent::DeclareWithName(_) => 0,
        }
    }

    /// A bare descriptor carrying just an OID, used where the catalog knows
    /// nothing more about the type.
    pub open spec fn spec_with_oid(oid: u32) -> PgTypeInfo {
        PgTypeInfo { ident: PgTypeIdent::Oid(oid), kind: PgTypeKind::Simple }
    }

    pub fn with_oid(oid: u32) -> (r: PgTypeInfo)
        ensures
            r == PgTypeInfo::spec_with_oid(oid),
    {
        PgTypeInfo { ident: PgTypeIdent::Oid(oid), kind: PgTypeKind::Simple }
    }

    /// Whether this descriptor is the generic record type's distinguished
    /// marker: the simple type with the record OID.
    pub open spec fn spec_is_record(self) -> bool {
        &&& self.kind is Simple
        &&& self.ident == PgTypeIdent::Oid(RECORD_OID)
    }

    pub fn is_record(&self) -> (r: bool)
        ensures
            r == self.spec_is_record(),
    {
        match (&self.ident, &self.kind) {
            (PgTypeIdent::Oid(o), PgTypeKind::Simple) => *o == RECORD_OID,
            _ => false,
        }
    }
}

/// One catalog entry: an OID and the descriptor it resolves to.
pub struct PgCatalogEntry {
    pub oid: u32,
    pub ty: PgTypeInfo,
}

/// The type catalog: resolves OIDs to type descriptors.
pub struct PgTypeCatalog {
    pub entries: Vec<PgCatalogEntry>,
}

/// The descriptor of the first entry matching `oid`, if any.
pub open spec fn spec_entries_resolve(s: Seq<PgCatalogEntry>, oid: u32) -> Option<PgTypeInfo>
    decreases s.len(),
{
    if s.len() == 0 {
        None
    } else if s[0].oid == oid {
        Some(s[0].ty)
    } else {
        spec_entries_resolve(s.skip(1), oid)
    }
}

impl PgTypeCatalog {
    pub open spec fn spec_resolve(self, oid: u32) -> Option<PgTypeInfo> {
        spec_entries_resolve(self.entries@, oid)
    }

    /// A catalog is consistent when every entry's descriptor carries the OID
    /// it is filed under.
    pub open spec fn wf(self) -> bool {
        forall|i: int|
            0 <= i < self.entries@.len() ==> (#[trigger] self.entries@[i]).ty.spec_oid()
                == self.entries@[i].oid
    }

    /// Looks `oid` up in the catalog.
    pub fn resolve(&self, oid: u32) -> (r: Option<&PgTypeInfo>)
        ensures
            match r {
                Some(t) => self.spec_resolve(oid) == Some(*t),
                None => self.spec_resolve(oid) is None,
            },
    {
        let n = self.entries.len();
        let mut i: usize = 0;
        proof {
            assert(self.entries@.skip(0) =~= self.entries@);
        }
        while i < n
            invariant
                i <= n == self.entries@.len(),
                spec_entries_resolve(self.entries@, oid) == spec_entries_resolve(
                    self.entries@.skip(i as int),
                    oid,
                ),
            decreases n - i,
        {
            if self.entries[i].oid == oid {
                assert(self.entries@.skip(i as int)[0] == self.entries@[i as int]);
                return Some(&self.entries[i].ty);
            }
            proof {
                assert(self.entries@.skip(i as int).skip(1) =~= self.entries@.skip(i + 1));
            }
            i = i + 1;
        }
        proof {
            assert(self.entries@.skip(i as int).len() == 0);
        }
        None
    }

    /// A consistent resolution carries the OID it was asked for.
    pub proof fn lemma_resolve_oid(self, oid: u32)
        requires
            self.wf(),
        ensures
            self.spec_resolve(oid) matches Some(t) ==> t.spec_oid() == oid,
    {
        Self::lemma_entries_resolve_oid(self.entries@, oid);
    }

    proof fn lemma_entries_resolve_oid(s: Seq<PgCatalogEntry>, oid: u32)
        requires
            forall|i: int|
                0 <= i < s.len() ==> (#[trigger] s[i]).ty.spec_oid() == s[i].oid,
        ensures
            spec_entries_resolve(s, oid) matches Some(t) ==> t.spec_oid() == oid,
        decreases s.len(),
    {
        if s.len() > 0 && s[0].oid != oid {
            Self::lemma_entries_resolve_oid(s.skip(1), oid);
        }
    }
}

} // verus!
