//! The wrapper for storage volumes.
//!
//! Provides APIs for the management of storage volumes.

use vstd::prelude::*;

use crate::connect::{connect_result, Connect};
use crate::error::Error;
use crate::ops;
use crate::remote::{
    invalid_result, no_call, pushed, remote_error_result, CallRecord, HandleOp, IntOp, ObjectKind,
    RawVolInfo, Remote, SlotView, StrOp, TransferOp,
};
use crate::stream::Stream;

pub mod flags;

use crate::storage_vol::flags::{
    vol_type_from, wipe_algorithm_bits, StorageVolDeleteFlags, StorageVolDownloadFlags,
    StorageVolInfoFlags, StorageVolResizeFlags, StorageVolType, StorageVolUploadFlags,
    StorageVolWipeAlgorithm,
};

verus! {

/// The summary a volume information query returns: backing kind and sizes
/// in bytes.
#[derive(Clone, Copy, Debug)]
pub struct StorageVolInfo {
    /// The kind of object backing the volume.
    pub type_: StorageVolType,
    /// Logical size bytes.
    pub capacity: u64,
    /// Current allocation bytes.
    pub allocation: u64,
}

impl Default for StorageVolInfo {
    /// An empty file-backed record, for callers that fill one in steps.
    fn default() -> (r: Self)
        ensures
            r.type_ == StorageVolType::File,
            r.capacity == 0,
            r.allocation == 0,
    {
        StorageVolInfo { type_: StorageVolType::File, capacity: 0, allocation: 0 }
    }
}

/// The information record built from a raw answer whose type number is
/// within the catalog.
pub open spec fn vol_info_of(raw: RawVolInfo) -> StorageVolInfo {
    StorageVolInfo {
        type_: vol_type_from(raw.vol_type)->0,
        capacity: raw.capacity,
        allocation: raw.allocation,
    }
}

/// A wrapper-producing result, seen as the raw handle it owns; used to
/// restate the generic lookup contract for volume results.
pub open spec fn vol_result(r: Result<StorageVol, Error>) -> Result<u64, Error> {
    match r {
        Ok(v) => Ok(v.handle()),
        Err(e) => Err(e),
    }
}

/// Contract of the volume information query: one call; a success is the
/// returned raw record with its cataloged type number translated.
pub open spec fn vol_info_post(
    live: bool,
    handle: u64,
    flagged: bool,
    flags: u32,
    h0: Seq<CallRecord>,
    h1: Seq<CallRecord>,
    slot: SlotView,
    out: Result<StorageVolInfo, Error>,
) -> bool {
    if live {
        match out {
            Err(_) => {
                &&& pushed(h0, h1, CallRecord::VolInfoQuery { handle, flagged, flags, ok: false })
                &&& remote_error_result(slot, out)
            },
            Ok(info) => exists|raw: RawVolInfo|
                #![auto]
                {
                    &&& pushed(h0, h1, CallRecord::VolInfoQuery { handle, flagged, flags, ok: true })
                    &&& 0 <= raw.vol_type <= 6
                    &&& info == vol_info_of(raw)
                },
        }
    } else {
        no_call(h0, h1) && invalid_result(out)
    }
}

/// Contract of a bulk transfer between a volume and a stream: gated on both
/// wrappers, one call carrying exactly the two handles, the window and the
/// flags.
pub open spec fn transfer_post(
    vol: Option<u64>,
    stream: Option<u64>,
    op: TransferOp,
    offset: u64,
    length: u64,
    flags: u32,
    h0: Seq<CallRecord>,
    h1: Seq<CallRecord>,
    slot: SlotView,
    out: Result<(), Error>,
) -> bool {
    match (vol, stream) {
        (Some(v), Some(s)) => exists|ret: i32|
            {
                &&& #[trigger] pushed(
                    h0,
                    h1,
                    CallRecord::Transfer { op, vol: v, stream: s, offset, length, flags, ret },
                )
                &&& if ret == -1 {
                    remote_error_result(slot, out)
                } else {
                    out == Ok::<(), Error>(())
                }
            },
        _ => no_call(h0, h1) && invalid_result(out),
    }
}

/// The wrapper owning the handle of one storage volume. It is live until
/// its one release, and every operation attempted after release fails fast
/// without a remote call.
#[derive(Debug)]
pub struct StorageVol {
    ptr: Option<u64>,
}

impl StorageVol {
    /// The handle state: present while live, absent once released.
    pub closed spec fn raw(&self) -> Option<u64> {
        self.ptr
    }

    /// The wrapper still owns its handle and its one release obligation.
    pub open spec fn is_live(&self) -> bool {
        self.raw() is Some
    }

    /// The wrapper was released; its handle is gone for good.
    pub open spec fn is_released(&self) -> bool {
        !self.is_live()
    }

    /// The owned handle of a live wrapper.
    pub open spec fn handle(&self) -> u64 {
        self.raw()->0
    }

    /// Stores a handle obtained from a lookup or create call as a live
    /// wrapper. Only that family of operations calls this.
    pub fn new(ptr: u64) -> (v: StorageVol)
        ensures
            v.is_live(),
            v.handle() == ptr,
    {
        StorageVol { ptr: Some(ptr) }
    }

    /// The raw handle, for handing to an adapter; the wrapper must still be
    /// live.
    pub fn as_ptr(&self) -> (r: u64)
        requires
            self.is_live(),
        ensures
            r == self.handle(),
    {
        self.ptr.unwrap()
    }

    /// The handle state, for the operations of the other wrappers that run
    /// against this volume.
    pub(crate) fn raw_opt(&self) -> (r: Option<u64>)
        ensures
            r == self.raw(),
    {
        self.ptr
    }

    /// Obtains an independent connection wrapper from a volume wrapper.
    pub fn get_connect<R: Remote>(&self, remote: &mut R) -> (r: Result<Connect, Error>)
        ensures
            ops::handle_post(
                self.is_live(),
                self.handle(),
                HandleOp::VolGetConnect,
                0,
                0,
                old(remote).history(),
                final(remote).history(),
                final(remote).error_slot(),
                connect_result(r),
            ),
            r matches Ok(c) ==> c.is_live(),
    {
        match ops::run_handle_op(remote, self.ptr, HandleOp::VolGetConnect, "", 0, 0) {
            Ok(h) => Ok(Connect::new(h)),
            Err(e) => Err(e),
        }
    }

    /// Looks a volume up by its storage key; a null answer fails with the
    /// captured error snapshot, and no wrapper is produced.
    pub fn lookup_by_key<R: Remote>(conn: &Connect, remote: &mut R, key: &str) -> (r: Result<
        StorageVol,
        Error,
    >)
        ensures
            ops::handle_post(
                conn.is_live(),
                conn.handle(),
                HandleOp::VolLookupByKey,
                0,
                0,
                old(remote).history(),
                final(remote).history(),
                final(remote).error_slot(),
                vol_result(r),
            ),
            r matches Ok(v) ==> v.is_live(),
    {
        match ops::run_handle_op(remote, conn.raw_opt(), HandleOp::VolLookupByKey, key, 0, 0) {
            Ok(h) => Ok(StorageVol::new(h)),
            Err(e) => Err(e),
        }
    }

    /// Looks a volume up by its host path, with the same contract as a
    /// lookup by key.
    pub fn lookup_by_path<R: Remote>(conn: &Connect, remote: &mut R, path: &str) -> (r: Result<
        StorageVol,
        Error,
    >)
        ensures
            ops::handle_post(
                conn.is_live(),
                conn.handle(),
                HandleOp::VolLookupByPath,
                0,
                0,
                old(remote).history(),
                final(remote).history(),
                final(remote).error_slot(),
                vol_result(r),
            ),
            r matches Ok(v) ==> v.is_live(),
    {
        match ops::run_handle_op(remote, conn.raw_opt(), HandleOp::VolLookupByPath, path, 0, 0) {
            Ok(h) => Ok(StorageVol::new(h)),
            Err(e) => Err(e),
        }
    }

    /// The volume's name, copied from a buffer borrowed from the volume
    /// object: no free call is issued on it.
    pub fn get_name<R: Remote>(&self, remote: &mut R) -> (r: Result<String, Error>)
        ensures
            ops::str_post(
                self.is_live(),
                self.handle(),
                StrOp::VolGetName,
                0,
                old(remote).history(),
                final(remote).history(),
                final(remote).error_slot(),
                r,
            ),
    {
        ops::run_str_op(remote, self.ptr, StrOp::VolGetName, 0)
    }

    /// The volume's storage key, copied from a buffer borrowed from the
    /// volume object: no free call is issued on it.
    pub fn get_key<R: Remote>(&self, remote: &mut R) -> (r: Result<String, Error>)
        ensures
            ops::str_post(
                self.is_live(),
                self.handle(),
                StrOp::VolGetKey,
                0,
                old(remote).history(),
                final(remote).history(),
                final(remote).error_slot(),
                r,
            ),
    {
        ops::run_str_op(remote, self.ptr, StrOp::VolGetKey, 0)
    }

    /// The volume's host path. The answer is an owned buffer: it is copied
    /// and then freed exactly once.
    pub fn get_path<R: Remote>(&self, remote: &mut R) -> (r: Result<String, Error>)
        ensures
            ops::str_post(
                self.is_live(),
                self.handle(),
                StrOp::VolGetPath,
                0,
                old(remote).history(),
                final(remote).history(),
                final(remote).error_slot(),
                r,
            ),
    {
        ops::run_str_op(remote, self.ptr, StrOp::VolGetPath, 0)
    }

    /// The volume's description. The answer is an owned buffer: it is
    /// copied and then freed exactly once.
    pub fn get_xml_desc<R: Remote>(&self, remote: &mut R) -> (r: Result<String, Error>)
        ensures
            ops::str_post(
                self.is_live(),
                self.handle(),
                StrOp::VolGetXmlDesc,
                0,
                old(remote).history(),
                final(remote).history(),
                final(remote).error_slot(),
                r,
            ),
    {
        ops::run_str_op(remote, self.ptr, StrOp::VolGetXmlDesc, 0)
    }

    /// Deletes the volume's backing store.
    pub fn delete<R: Remote>(&self, remote: &mut R, flags: StorageVolDeleteFlags) -> (r: Result<
        (),
        Error,
    >)
        ensures
            ops::unit_post(
                self.is_live(),
                self.handle(),
                IntOp::VolDelete,
                0,
                0,
                flags.bits,
                old(remote).history(),
                final(remote).history(),
                final(remote).error_slot(),
                r,
            ),
    {
        ops::run_unit_op(remote, self.ptr, IntOp::VolDelete, 0, 0, flags.bits())
    }

    /// Scrubs the volume with the daemon's default one-pass procedure.
    pub fn wipe<R: Remote>(&self, remote: &mut R) -> (r: Result<(), Error>)
        ensures
            ops::unit_post(
                self.is_live(),
                self.handle(),
                IntOp::VolWipe,
                0,
                0,
                0,
                old(remote).history(),
                final(remote).history(),
                final(remote).error_slot(),
                r,
            ),
    {
        ops::run_unit_op(remote, self.ptr, IntOp::VolWipe, 0, 0, 0)
    }

    /// Scrubs the volume with the chosen procedure.
    pub fn wipe_pattern<R: Remote>(&self, remote: &mut R, algo: StorageVolWipeAlgorithm) -> (r:
        Result<(), Error>)
        ensures
            ops::unit_post(
                self.is_live(),
                self.handle(),
                IntOp::VolWipePattern,
                wipe_algorithm_bits(algo) as u64,
                0,
                0,
                old(remote).history(),
                final(remote).history(),
                final(remote).error_slot(),
                r,
            ),
    {
        let bits = algo.bits();
        ops::run_unit_op(remote, self.ptr, IntOp::VolWipePattern, bits as u64, 0, 0)
    }

    /// Releases the local proxy for the volume. A live wrapper issues the
    /// release call exactly once and becomes released even if that call
    /// fails; a released wrapper answers success without any remote call.
    pub fn free<R: Remote>(&mut self, remote: &mut R) -> (r: Result<(), Error>)
        ensures
            final(self).is_released(),
            ops::release_post(
                old(self).raw(),
                ObjectKind::StorageVol,
                old(remote).history(),
                final(remote).history(),
                final(remote).error_slot(),
                r,
            ),
    {
        ops::run_release(remote, &mut self.ptr, ObjectKind::StorageVol)
    }

    /// Grows or shrinks the volume to the given capacity in bytes.
    pub fn resize<R: Remote>(&self, remote: &mut R, capacity: u64, flags: StorageVolResizeFlags) -> (r:
        Result<(), Error>)
        ensures
            ops::unit_post(
                self.is_live(),
                self.handle(),
                IntOp::VolResize,
                capacity,
                0,
                flags.bits,
                old(remote).history(),
                final(remote).history(),
                final(remote).error_slot(),
                r,
            ),
    {
        ops::run_unit_op(remote, self.ptr, IntOp::VolResize, capacity, 0, flags.bits())
    }

    /// The volume's information record.
    pub fn get_info<R: Remote>(&self, remote: &mut R) -> (r: Result<StorageVolInfo, Error>)
        ensures
            vol_info_post(
                self.is_live(),
                self.handle(),
                false,
                0,
                old(remote).history(),
                final(remote).history(),
                final(remote).error_slot(),
                r,
            ),
    {
        self.info_call(remote, false, 0)
    }

    /// The volume's information record, with the chosen measure.
    pub fn get_info_flags<R: Remote>(&self, remote: &mut R, flags: StorageVolInfoFlags) -> (r:
        Result<StorageVolInfo, Error>)
        ensures
            vol_info_post(
                self.is_live(),
                self.handle(),
                true,
                flags.bits,
                old(remote).history(),
                final(remote).history(),
                final(remote).error_slot(),
                r,
            ),
    {
        self.info_call(remote, true, flags.bits())
    }

    /// The one information routine both queries converge on.
    fn info_call<R: Remote>(&self, remote: &mut R, flagged: bool, flags: u32) -> (r: Result<
        StorageVolInfo,
        Error,
    >)
        ensures
            vol_info_post(
                self.is_live(),
                self.handle(),
                flagged,
                flags,
                old(remote).history(),
                final(remote).history(),
                final(remote).error_slot(),
                r,
            ),
    {
        match self.ptr {
            None => Err(Error::invalid()),
            Some(h) => {
                let answer = remote.vol_info_op(h, flagged, flags);
                match answer {
                    None => Err(ops::capture(remote)),
                    Some(raw) => {
                        let type_ = StorageVolType::from_int(raw.vol_type);
                        match type_ {
                            Some(t) => {
                                let info = StorageVolInfo {
                                    type_: t,
                                    capacity: raw.capacity,
                                    allocation: raw.allocation,
                                };
                                proof {
                                    assert(info == vol_info_of(raw));
                                }
                                Ok(info)
                            },
                            None => {
                                proof {
                                    assert(false);
                                }
                                Err(Error::invalid())
                            },
                        }
                    },
                }
            },
        }
    }

    /// Streams the volume's contents out through the given stream.
    pub fn download<R: Remote>(
        &self,
        remote: &mut R,
        stream: &Stream,
        offset: u64,
        length: u64,
        flags: StorageVolDownloadFlags,
    ) -> (r: Result<(), Error>)
        ensures
            transfer_post(
                self.raw(),
                stream.raw(),
                TransferOp::VolDownload,
                offset,
                length,
                flags.bits,
                old(remote).history(),
                final(remote).history(),
                final(remote).error_slot(),
                r,
            ),
    {
        self.transfer_call(remote, stream, TransferOp::VolDownload, offset, length, flags.bits())
    }

    /// Streams new contents into the volume through the given stream.
    pub fn upload<R: Remote>(
        &self,
        remote: &mut R,
        stream: &Stream,
        offset: u64,
        length: u64,
        flags: StorageVolUploadFlags,
    ) -> (r: Result<(), Error>)
        ensures
            transfer_post(
                self.raw(),
                stream.raw(),
                TransferOp::VolUpload,
                offset,
                length,
                flags.bits,
                old(remote).history(),
                final(remote).history(),
                final(remote).error_slot(),
                r,
            ),
    {
        self.transfer_call(remote, stream, TransferOp::VolUpload, offset, length, flags.bits())
    }

    /// The one transfer routine both directions converge on: gated on the
    /// volume and the stream both being live.
    fn transfer_call<R: Remote>(
        &self,
        remote: &mut R,
        stream: &Stream,
        op: TransferOp,
        offset: u64,
        length: u64,
        flags: u32,
    ) -> (r: Result<(), Error>)
        ensures
            transfer_post(
                self.raw(),
                stream.raw(),
                op,
                offset,
                length,
                flags,
                old(remote).history(),
                final(remote).history(),
                final(remote).error_slot(),
                r,
            ),
    {
        match (self.ptr, stream.raw_opt()) {
            (Some(v), Some(s)) => {
                let ret = remote.transfer_op(op, v, s, offset, length, flags);
                if ret == -1 {
                    Err(ops::capture(remote))
                } else {
                    Ok(())
                }
            },
            _ => Err(Error::invalid()),
        }
    }
}

} // verus!
