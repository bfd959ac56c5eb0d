//! The wrapper for storage pools.
//!
//! Provides APIs for the management of storage pools.

use vstd::prelude::*;

use crate::connect::{connect_result, Connect};
use crate::error::Error;
use crate::ops;
use crate::remote::{
    invalid_result, no_call, pushed, remote_error_result, CallRecord, FillStrOp, HandleOp, IntOp,
    ObjectKind, RawPoolInfo, Remote, SlotView, StrOp,
};
use crate::storage_vol::StorageVol;

pub mod flags;

use crate::storage_pool::flags::{
    pool_state_from, StoragePoolBuildFlags, StoragePoolCreateFlags, StoragePoolDeleteFlags,
    StoragePoolState, StoragePoolXmlFlags,
};

verus! {

/// The summary a pool information query returns: running state and sizes in
/// bytes.
#[derive(Debug)]
pub struct StoragePoolInfo {
    pub state: StoragePoolState,
    /// Logical size bytes.
    pub capacity: u64,
    /// Current allocation bytes.
    pub allocation: u64,
    /// Remaining free space bytes.
    pub available: u64,
}

/// The information record built from a raw answer whose state number is
/// within the catalog.
pub open spec fn pool_info_of(raw: RawPoolInfo) -> StoragePoolInfo {
    StoragePoolInfo {
        state: pool_state_from(raw.state)->0,
        capacity: raw.capacity,
        allocation: raw.allocation,
        available: raw.available,
    }
}

/// A wrapper-producing result, seen as the raw handle it owns; used to
/// restate the generic lookup contract for pool results.
pub open spec fn pool_result(r: Result<StoragePool, Error>) -> Result<u64, Error> {
    match r {
        Ok(p) => Ok(p.handle()),
        Err(e) => Err(e),
    }
}

/// Contract of the pool information query: one call; a success is the
/// returned raw record with its cataloged state number translated.
pub open spec fn pool_info_post(
    live: bool,
    handle: u64,
    h0: Seq<CallRecord>,
    h1: Seq<CallRecord>,
    slot: SlotView,
    out: Result<StoragePoolInfo, Error>,
) -> bool {
    if live {
        match out {
            Err(_) => {
                &&& pushed(h0, h1, CallRecord::PoolInfoQuery { handle, ok: false })
                &&& remote_error_result(slot, out)
            },
            Ok(info) => exists|raw: RawPoolInfo|
                #![auto]
                {
                    &&& pushed(h0, h1, CallRecord::PoolInfoQuery { handle, ok: true })
                    &&& 0 <= raw.state <= 5
                    &&& info == pool_info_of(raw)
                },
        }
    } else {
        no_call(h0, h1) && invalid_result(out)
    }
}

/// The wrapper owning the handle of one storage pool. It is live until its
/// one release, and every operation attempted after release fails fast
/// without a remote call.
pub struct StoragePool {
    ptr: Option<u64>,
}

impl StoragePool {
    /// The handle state: present while live, absent once released.
    pub closed spec fn raw(&self) -> Option<u64> {
        self.ptr
    }

    /// The wrapper still owns its handle and its one release obligation.
    pub open spec fn is_live(&self) -> bool {
        self.raw() is Some
    }

    /// The wrapper was released; its handle is gone for good.
    pub open spec fn is_released(&self) -> bool {
        !self.is_live()
    }

    /// The owned handle of a live wrapper.
    pub open spec fn handle(&self) -> u64 {
        self.raw()->0
    }

    /// Stores a handle obtained from a lookup, define or create call as a
    /// live wrapper. Only that family of operations calls this.
    pub fn new(ptr: u64) -> (p: StoragePool)
        ensures
            p.is_live(),
            p.handle() == ptr,
    {
        StoragePool { ptr: Some(ptr) }
    }

    /// The raw handle, for handing to an adapter; the wrapper must still be
    /// live.
    pub fn as_ptr(&self) -> (r: u64)
        requires
            self.is_live(),
        ensures
            r == self.handle(),
    {
        self.ptr.unwrap()
    }

    /// Obtains an independent connection wrapper from a pool wrapper.
    pub fn get_connect<R: Remote>(&self, remote: &mut R) -> (r: Result<Connect, Error>)
        ensures
            ops::handle_post(
                self.is_live(),
                self.handle(),
                HandleOp::PoolGetConnect,
                0,
                0,
                old(remote).history(),
                final(remote).history(),
                final(remote).error_slot(),
                connect_result(r),
            ),
            r matches Ok(c) ==> c.is_live(),
    {
        match ops::run_handle_op(remote, self.ptr, HandleOp::PoolGetConnect, "", 0, 0) {
            Ok(h) => Ok(Connect::new(h)),
            Err(e) => Err(e),
        }
    }

    /// Defines a persistent pool from a description without building or
    /// starting it.
    pub fn define_xml<R: Remote>(conn: &Connect, remote: &mut R, xml: &str) -> (r: Result<
        StoragePool,
        Error,
    >)
        ensures
            ops::handle_post(
                conn.is_live(),
                conn.handle(),
                HandleOp::PoolDefineXml,
                0,
                0,
                old(remote).history(),
                final(remote).history(),
                final(remote).error_slot(),
                pool_result(r),
            ),
            r matches Ok(p) ==> p.is_live(),
    {
        match ops::run_handle_op(remote, conn.raw_opt(), HandleOp::PoolDefineXml, xml, 0, 0) {
            Ok(h) => Ok(StoragePool::new(h)),
            Err(e) => Err(e),
        }
    }

    /// Creates and starts a transient pool from a description.
    pub fn create_xml<R: Remote>(
        conn: &Connect,
        remote: &mut R,
        xml: &str,
        flags: StoragePoolCreateFlags,
    ) -> (r: Result<StoragePool, Error>)
        ensures
            ops::handle_post(
                conn.is_live(),
                conn.handle(),
                HandleOp::PoolCreateXml,
                0,
                flags.bits,
                old(remote).history(),
                final(remote).history(),
                final(remote).error_slot(),
                pool_result(r),
            ),
            r matches Ok(p) ==> p.is_live(),
    {
        match ops::run_handle_op(
            remote,
            conn.raw_opt(),
            HandleOp::PoolCreateXml,
            xml,
            0,
            flags.bits(),
        ) {
            Ok(h) => Ok(StoragePool::new(h)),
            Err(e) => Err(e),
        }
    }

    /// Looks a pool up by name; a null answer fails with the captured error
    /// snapshot, and no wrapper is produced.
    pub fn lookup_by_name<R: Remote>(conn: &Connect, remote: &mut R, id: &str) -> (r: Result<
        StoragePool,
        Error,
    >)
        ensures
            ops::handle_post(
                conn.is_live(),
                conn.handle(),
                HandleOp::PoolLookupByName,
                0,
                0,
                old(remote).history(),
                final(remote).history(),
                final(remote).error_slot(),
                pool_result(r),
            ),
            r matches Ok(p) ==> p.is_live(),
    {
        match ops::run_handle_op(remote, conn.raw_opt(), HandleOp::PoolLookupByName, id, 0, 0) {
            Ok(h) => Ok(StoragePool::new(h)),
            Err(e) => Err(e),
        }
    }

    /// Looks up the pool a volume belongs to.
    pub fn lookup_by_volume<R: Remote>(vol: &StorageVol, remote: &mut R) -> (r: Result<
        StoragePool,
        Error,
    >)
        ensures
            ops::handle_post(
                vol.is_live(),
                vol.handle(),
                HandleOp::PoolLookupByVolume,
                0,
                0,
                old(remote).history(),
                final(remote).history(),
                final(remote).error_slot(),
                pool_result(r),
            ),
            r matches Ok(p) ==> p.is_live(),
    {
        match ops::run_handle_op(remote, vol.raw_opt(), HandleOp::PoolLookupByVolume, "", 0, 0) {
            Ok(h) => Ok(StoragePool::new(h)),
            Err(e) => Err(e),
        }
    }

    /// Looks a pool up by its textual identifier, with the same contract as
    /// a lookup by name.
    pub fn lookup_by_uuid_string<R: Remote>(conn: &Connect, remote: &mut R, uuid: &str) -> (r:
        Result<StoragePool, Error>)
        ensures
            ops::handle_post(
                conn.is_live(),
                conn.handle(),
                HandleOp::PoolLookupByUuid,
                0,
                0,
                old(remote).history(),
                final(remote).history(),
                final(remote).error_slot(),
                pool_result(r),
            ),
            r matches Ok(p) ==> p.is_live(),
    {
        match ops::run_handle_op(remote, conn.raw_opt(), HandleOp::PoolLookupByUuid, uuid, 0, 0) {
            Ok(h) => Ok(StoragePool::new(h)),
            Err(e) => Err(e),
        }
    }

    /// The pool's name, copied from a buffer borrowed from the pool object:
    /// no free call is issued on it.
    pub fn get_name<R: Remote>(&self, remote: &mut R) -> (r: Result<String, Error>)
        ensures
            ops::str_post(
                self.is_live(),
                self.handle(),
                StrOp::PoolGetName,
                0,
                old(remote).history(),
                final(remote).history(),
                final(remote).error_slot(),
                r,
            ),
    {
        ops::run_str_op(remote, self.ptr, StrOp::PoolGetName, 0)
    }

    /// How many volumes the pool holds.
    pub fn num_of_volumes<R: Remote>(&self, remote: &mut R) -> (r: Result<u32, Error>)
        ensures
            ops::u32_post(
                self.is_live(),
                self.handle(),
                IntOp::PoolNumOfVolumes,
                0,
                0,
                0,
                old(remote).history(),
                final(remote).history(),
                final(remote).error_slot(),
                r,
            ),
    {
        ops::run_u32_op(remote, self.ptr, IntOp::PoolNumOfVolumes, 0, 0, 0)
    }

    /// The pool's textual identifier, through the caller's own small
    /// buffer.
    pub fn get_uuid_string<R: Remote>(&self, remote: &mut R) -> (r: Result<String, Error>)
        ensures
            ops::fill_post(
                self.is_live(),
                self.handle(),
                FillStrOp::PoolGetUuid,
                old(remote).history(),
                final(remote).history(),
                final(remote).error_slot(),
                r,
            ),
    {
        ops::run_fill_str_op(remote, self.ptr, FillStrOp::PoolGetUuid)
    }

    /// The pool's description. The answer is an owned buffer: it is copied
    /// and then freed exactly once.
    pub fn get_xml_desc<R: Remote>(&self, remote: &mut R, flags: StoragePoolXmlFlags) -> (r: Result<
        String,
        Error,
    >)
        ensures
            ops::str_post(
                self.is_live(),
                self.handle(),
                StrOp::PoolGetXmlDesc,
                flags.bits,
                old(remote).history(),
                final(remote).history(),
                final(remote).error_slot(),
                r,
            ),
    {
        ops::run_str_op(remote, self.ptr, StrOp::PoolGetXmlDesc, flags.bits())
    }

    /// Starts the defined pool.
    pub fn create<R: Remote>(&self, remote: &mut R, flags: StoragePoolCreateFlags) -> (r: Result<
        (),
        Error,
    >)
        ensures
            ops::unit_post(
                self.is_live(),
                self.handle(),
                IntOp::PoolCreate,
                0,
                0,
                flags.bits,
                old(remote).history(),
                final(remote).history(),
                final(remote).error_slot(),
                r,
            ),
    {
        ops::run_unit_op(remote, self.ptr, IntOp::PoolCreate, 0, 0, flags.bits())
    }

    /// Builds the pool's backing store.
    pub fn build<R: Remote>(&self, remote: &mut R, flags: StoragePoolBuildFlags) -> (r: Result<
        (),
        Error,
    >)
        ensures
            ops::unit_post(
                self.is_live(),
                self.handle(),
                IntOp::PoolBuild,
                0,
                0,
                flags.bits,
                old(remote).history(),
                final(remote).history(),
                final(remote).error_slot(),
                r,
            ),
    {
        ops::run_unit_op(remote, self.ptr, IntOp::PoolBuild, 0, 0, flags.bits())
    }

    /// Stops the pool. This does not release the wrapper's own handle.
    pub fn destroy<R: Remote>(&self, remote: &mut R) -> (r: Result<(), Error>)
        ensures
            ops::unit_post(
                self.is_live(),
                self.handle(),
                IntOp::PoolDestroy,
                0,
                0,
                0,
                old(remote).history(),
                final(remote).history(),
                final(remote).error_slot(),
                r,
            ),
    {
        ops::run_unit_op(remote, self.ptr, IntOp::PoolDestroy, 0, 0, 0)
    }

    /// Deletes the pool's backing store.
    pub fn delete<R: Remote>(&self, remote: &mut R, flags: StoragePoolDeleteFlags) -> (r: Result<
        (),
        Error,
    >)
        ensures
            ops::unit_post(
                self.is_live(),
                self.handle(),
                IntOp::PoolDelete,
                0,
                0,
                flags.bits,
                old(remote).history(),
                final(remote).history(),
                final(remote).error_slot(),
                r,
            ),
    {
        ops::run_unit_op(remote, self.ptr, IntOp::PoolDelete, 0, 0, flags.bits())
    }

    /// Removes the pool's persistent definition.
    pub fn undefine<R: Remote>(&self, remote: &mut R) -> (r: Result<(), Error>)
        ensures
            ops::unit_post(
                self.is_live(),
                self.handle(),
                IntOp::PoolUndefine,
                0,
                0,
                0,
                old(remote).history(),
                final(remote).history(),
                final(remote).error_slot(),
                r,
            ),
    {
        ops::run_unit_op(remote, self.ptr, IntOp::PoolUndefine, 0, 0, 0)
    }

    /// Releases the local proxy for the pool. A live wrapper issues the
    /// release call exactly once and becomes released even if that call
    /// fails; a released wrapper answers success without any remote call.
    pub fn free<R: Remote>(&mut self, remote: &mut R) -> (r: Result<(), Error>)
        ensures
            final(self).is_released(),
            ops::release_post(
                old(self).raw(),
                ObjectKind::StoragePool,
                old(remote).history(),
                final(remote).history(),
                final(remote).error_slot(),
                r,
            ),
    {
        ops::run_release(remote, &mut self.ptr, ObjectKind::StoragePool)
    }

    /// Whether the pool is running.
    pub fn is_active<R: Remote>(&self, remote: &mut R) -> (r: Result<bool, Error>)
        ensures
            ops::bool_post(
                self.is_live(),
                self.handle(),
                IntOp::PoolIsActive,
                0,
                0,
                0,
                old(remote).history(),
                final(remote).history(),
                final(remote).error_slot(),
                r,
            ),
    {
        ops::run_bool_op(remote, self.ptr, IntOp::PoolIsActive, 0, 0, 0)
    }

    /// Whether the pool has a persistent definition.
    pub fn is_persistent<R: Remote>(&self, remote: &mut R) -> (r: Result<bool, Error>)
        ensures
            ops::bool_post(
                self.is_live(),
                self.handle(),
                IntOp::PoolIsPersistent,
                0,
                0,
                0,
                old(remote).history(),
                final(remote).history(),
                final(remote).error_slot(),
                r,
            ),
    {
        ops::run_bool_op(remote, self.ptr, IntOp::PoolIsPersistent, 0, 0, 0)
    }

    /// Asks the daemon to rescan the pool's contents.
    pub fn refresh<R: Remote>(&self, remote: &mut R) -> (r: Result<(), Error>)
        ensures
            ops::unit_post(
                self.is_live(),
                self.handle(),
                IntOp::PoolRefresh,
                0,
                0,
                0,
                old(remote).history(),
                final(remote).history(),
                final(remote).error_slot(),
                r,
            ),
    {
        ops::run_unit_op(remote, self.ptr, IntOp::PoolRefresh, 0, 0, 0)
    }

    /// Whether the pool starts automatically with the host.
    pub fn get_autostart<R: Remote>(&self, remote: &mut R) -> (r: Result<bool, Error>)
        ensures
            ops::autostart_post(
                self.is_live(),
                self.handle(),
                ObjectKind::StoragePool,
                old(remote).history(),
                final(remote).history(),
                final(remote).error_slot(),
                r,
            ),
    {
        ops::run_autostart(remote, self.ptr, ObjectKind::StoragePool)
    }

    /// Changes whether the pool starts automatically with the host.
    pub fn set_autostart<R: Remote>(&self, remote: &mut R, autostart: bool) -> (r: Result<
        (),
        Error,
    >)
        ensures
            ops::unit_post(
                self.is_live(),
                self.handle(),
                IntOp::PoolSetAutostart,
                if autostart {
                    1
                } else {
                    0
                },
                0,
                0,
                old(remote).history(),
                final(remote).history(),
                final(remote).error_slot(),
                r,
            ),
    {
        let arg: u64 = if autostart {
            1
        } else {
            0
        };
        ops::run_unit_op(remote, self.ptr, IntOp::PoolSetAutostart, arg, 0, 0)
    }

    /// The pool's information record.
    pub fn get_info<R: Remote>(&self, remote: &mut R) -> (r: Result<StoragePoolInfo, Error>)
        ensures
            pool_info_post(
                self.is_live(),
                self.handle(),
                old(remote).history(),
                final(remote).history(),
                final(remote).error_slot(),
                r,
            ),
    {
        match self.ptr {
            None => Err(Error::invalid()),
            Some(h) => {
                let answer = remote.pool_info_op(h);
                match answer {
                    None => Err(ops::capture(remote)),
                    Some(raw) => {
                        let state = StoragePoolState::from_int(raw.state);
                        match state {
                            Some(s) => {
                                let info = StoragePoolInfo {
                                    state: s,
                                    capacity: raw.capacity,
                                    allocation: raw.allocation,
                                    available: raw.available,
                                };
                                proof {
                                    assert(info == pool_info_of(raw));
                                }
                                Ok(info)
                            },
                            None => {
                                proof {
                                    assert(false);
                                }
                                Err(Error::invalid())
                            },
                        }
                    },
                }
            },
        }
    }
}

} // verus!
