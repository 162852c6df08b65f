//! The packets that tell a client what is in sight.

use vstd::prelude::*;
use crate::network::error::WireError;
use crate::network::wire::Wire;
use crate::id::NetworkId;

verus! {

/// Tells a client that an entity came into its sight.
#[derive(Clone, Copy, Debug, PartialEq, Eq, Structural)]
pub struct SpawnEntity {
    pub id: NetworkId,
}

impl View for SpawnEntity {
    type V = SpawnEntity;

    open spec fn view(&self) -> SpawnEntity {
        *self
    }
}

impl Wire for SpawnEntity {
    open spec fn wire(value: SpawnEntity) -> Seq<u8> {
        NetworkId::wire(value.id@)
    }

    open spec fn fits(value: SpawnEntity) -> bool {
        true
    }

    open spec fn parse(bytes: Seq<u8>, at: int) -> core::result::Result<(SpawnEntity, int), WireError> {
        match NetworkId::parse(bytes, at) {
            Ok((id, after_id)) => {
                Ok((SpawnEntity { id: NetworkId(id) }, after_id))
            },
            Err(error) => Err(error),
        }
    }

    proof fn lemma_parse_wire(bytes: Seq<u8>, at: int, value: SpawnEntity) {
        NetworkId::lemma_parse_wire(bytes, at, value.id@);
    }

    proof fn lemma_wire_parse(bytes: Seq<u8>, at: int) {
        NetworkId::lemma_wire_parse(bytes, at);
    }

    fn write_to(&self, out: &mut Vec<u8>) -> (done: core::result::Result<(), WireError>) {
        let _ = self.id.write_to(out);
        assert(out@ =~= old(out)@ + Self::wire(self@));
        Ok(())
    }

    fn read_from(bytes: &[u8], at: usize) -> (read: core::result::Result<(SpawnEntity, usize), WireError>) {
        let (id, after_id) = match NetworkId::read_from(bytes, at) {
            Ok(read) => read,
            Err(error) => return Err(error),
        };
        Ok((SpawnEntity { id }, after_id))
    }
}

/// Tells a client that an entity left its sight.
#[derive(Clone, Copy, Debug, PartialEq, Eq, Structural)]
pub struct DespawnEntity {
    pub id: NetworkId,
}

impl View for DespawnEntity {
    type V = DespawnEntity;

    open spec fn view(&self) -> DespawnEntity {
        *self
    }
}

impl Wire for DespawnEntity {
    open spec fn wire(value: DespawnEntity) -> Seq<u8> {
        NetworkId::wire(value.id@)
    }

    open spec fn fits(value: DespawnEntity) -> bool {
        true
    }

    open spec fn parse(bytes: Seq<u8>, at: int) -> core::result::Result<(DespawnEntity, int), WireError> {
        match NetworkId::parse(bytes, at) {
            Ok((id, after_id)) => {
                Ok((DespawnEntity { id: NetworkId(id) }, after_id))
            },
            Err(error) => Err(error),
        }
    }

    proof fn lemma_parse_wire(bytes: Seq<u8>, at: int, value: DespawnEntity) {
        NetworkId::lemma_parse_wire(bytes, at, value.id@);
    }

    proof fn lemma_wire_parse(bytes: Seq<u8>, at: int) {
        NetworkId::lemma_wire_parse(bytes, at);
    }

    fn write_to(&self, out: &mut Vec<u8>) -> (done: core::result::Result<(), WireError>) {
        let _ = self.id.write_to(out);
        assert(out@ =~= old(out)@ + Self::wire(self@));
        Ok(())
    }

    fn read_from(bytes: &[u8], at: usize) -> (read: core::result::Result<(DespawnEntity, usize), WireError>) {
        let (id, after_id) = match NetworkId::read_from(bytes, at) {
            Ok(read) => read,
            Err(error) => return Err(error),
        };
        Ok((DespawnEntity { id }, after_id))
    }
}

/// Asks the server where an entity is and where it is heading.
#[derive(Clone, Copy, Debug, PartialEq, Eq, Structural)]
pub struct QueryEntity {
    pub id: NetworkId,
}

impl View for QueryEntity {
    type V = QueryEntity;

    open spec fn view(&self) -> QueryEntity {
        *self
    }
}

impl Wire for QueryEntity {
    open spec fn wire(value: QueryEntity) -> Seq<u8> {
        NetworkId::wire(value.id@)
    }

    open spec fn fits(value: QueryEntity) -> bool {
        true
    }

    open spec fn parse(bytes: Seq<u8>, at: int) -> core::result::Result<(QueryEntity, int), WireError> {
        match NetworkId::parse(bytes, at) {
            Ok((id, after_id)) => {
                Ok((QueryEntity { id: NetworkId(id) }, after_id))
            },
            Err(error) => Err(error),
        }
    }

    proof fn lemma_parse_wire(bytes: Seq<u8>, at: int, value: QueryEntity) {
        NetworkId::lemma_parse_wire(bytes, at, value.id@);
    }

    proof fn lemma_wire_parse(bytes: Seq<u8>, at: int) {
        NetworkId::lemma_wire_parse(bytes, at);
    }

    fn write_to(&self, out: &mut Vec<u8>) -> (done: core::result::Result<(), WireError>) {
        let _ = self.id.write_to(out);
        assert(out@ =~= old(out)@ + Self::wire(self@));
        Ok(())
    }

    fn read_from(bytes: &[u8], at: usize) -> (read: core::result::Result<(QueryEntity, usize), WireError>) {
        let (id, after_id) = match NetworkId::read_from(bytes, at) {
            Ok(read) => read,
            Err(error) => return Err(error),
        };
        Ok((QueryEntity { id }, after_id))
    }
}

} // verus!
