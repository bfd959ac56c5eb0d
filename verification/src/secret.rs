//! The wrapper for secrets: small values the daemon stores for other
//! objects, looked up by identifier or usage.

use vstd::prelude::*;

use crate::connect::{connect_result, Connect};
use crate::error::Error;
use crate::ops;
use crate::remote::{
    invalid_result, no_call, pushed, pushed2, remote_error_result, CallRecord, FillStrOp, HandleOp,
    IntOp, ObjectKind, Remote, RemoteBytes, SlotView, StrOp,
};

pub mod flags;

use crate::secret::flags::SecretXMLFlags;

verus! {

/// A wrapper-producing result, seen as the raw handle it owns; used to
/// restate the generic lookup contract for secret results.
pub open spec fn secret_result(r: Result<Secret, Error>) -> Result<u64, Error> {
    match r {
        Ok(s) => Ok(s.handle()),
        Err(e) => Err(e),
    }
}

/// Contract of handing a value to the secret: one call carrying exactly the
/// value's length.
pub open spec fn set_value_post(
    live: bool,
    handle: u64,
    len: usize,
    flags: u32,
    h0: Seq<CallRecord>,
    h1: Seq<CallRecord>,
    slot: SlotView,
    out: Result<(), Error>,
) -> bool {
    if live {
        exists|ret: i32|
            {
                &&& #[trigger] pushed(h0, h1, CallRecord::SetValue { handle, len, flags, ret })
                &&& if ret == -1 {
                    remote_error_result(slot, out)
                } else {
                    out == Ok::<(), Error>(())
                }
            }
    } else {
        no_call(h0, h1) && invalid_result(out)
    }
}

/// Contract of reading the secret's value: one call; on success a copy of
/// the remote-allocated byte buffer, which is freed exactly once after the
/// copy.
pub open spec fn get_value_post(
    live: bool,
    handle: u64,
    flags: u32,
    h0: Seq<CallRecord>,
    h1: Seq<CallRecord>,
    slot: SlotView,
    out: Result<Vec<u8>, Error>,
) -> bool {
    if live {
        match out {
            Err(_) => {
                &&& pushed(h0, h1, CallRecord::Bytes { handle, flags, ret_id: 0, count: 0 })
                &&& remote_error_result(slot, out)
            },
            Ok(data) => exists|buf: RemoteBytes|
                #![auto]
                {
                    &&& buf.id != 0
                    &&& pushed2(
                        h0,
                        h1,
                        CallRecord::Bytes {
                            handle,
                            flags,
                            ret_id: buf.id,
                            count: buf.data@.len() as usize,
                        },
                        CallRecord::FreeBuf { id: buf.id },
                    )
                    &&& data == buf.data
                },
        }
    } else {
        no_call(h0, h1) && invalid_result(out)
    }
}

/// The wrapper owning the handle of one secret. It is live until its one
/// release, and every operation attempted after release fails fast without
/// a remote call.
#[derive(Debug)]
pub struct Secret {
    ptr: Option<u64>,
}

impl Secret {
    /// The handle state: present while live, absent once released.
    pub closed spec fn raw(&self) -> Option<u64> {
        self.ptr
    }

    /// The wrapper still owns its handle and its one release obligation.
    pub open spec fn is_live(&self) -> bool {
        self.raw() is Some
    }

    /// The wrapper was released; its handle is gone for good.
    pub open spec fn is_released(&self) -> bool {
        !self.is_live()
    }

    /// The owned handle of a live wrapper.
    pub open spec fn handle(&self) -> u64 {
        self.raw()->0
    }

    /// Stores a handle obtained from a lookup or define call as a live
    /// wrapper. Only that family of operations calls this.
    pub fn new(ptr: u64) -> (s: Secret)
        ensures
            s.is_live(),
            s.handle() == ptr,
    {
        Secret { ptr: Some(ptr) }
    }

    /// The raw handle, for handing to an adapter; the wrapper must still be
    /// live.
    pub fn as_ptr(&self) -> (r: u64)
        requires
            self.is_live(),
        ensures
            r == self.handle(),
    {
        self.ptr.unwrap()
    }

    /// Obtains an independent connection wrapper from a secret wrapper.
    pub fn get_connect<R: Remote>(&self, remote: &mut R) -> (r: Result<Connect, Error>)
        ensures
            ops::handle_post(
                self.is_live(),
                self.handle(),
                HandleOp::SecretGetConnect,
                0,
                0,
                old(remote).history(),
                final(remote).history(),
                final(remote).error_slot(),
                connect_result(r),
            ),
            r matches Ok(c) ==> c.is_live(),
    {
        match ops::run_handle_op(remote, self.ptr, HandleOp::SecretGetConnect, "", 0, 0) {
            Ok(h) => Ok(Connect::new(h)),
            Err(e) => Err(e),
        }
    }

    /// Defines a secret from a description.
    pub fn define_xml<R: Remote>(conn: &Connect, remote: &mut R, xml: &str, flags: u32) -> (r:
        Result<Secret, Error>)
        ensures
            ops::handle_post(
                conn.is_live(),
                conn.handle(),
                HandleOp::SecretDefineXml,
                0,
                flags,
                old(remote).history(),
                final(remote).history(),
                final(remote).error_slot(),
                secret_result(r),
            ),
            r matches Ok(s) ==> s.is_live(),
    {
        match ops::run_handle_op(remote, conn.raw_opt(), HandleOp::SecretDefineXml, xml, 0, flags) {
            Ok(h) => Ok(Secret::new(h)),
            Err(e) => Err(e),
        }
    }

    /// Looks a secret up by its textual identifier; a null answer fails with
    /// the captured error snapshot, and no wrapper is produced.
    pub fn lookup_by_uuid_string<R: Remote>(conn: &Connect, remote: &mut R, uuid: &str) -> (r:
        Result<Secret, Error>)
        ensures
            ops::handle_post(
                conn.is_live(),
                conn.handle(),
                HandleOp::SecretLookupByUuid,
                0,
                0,
                old(remote).history(),
                final(remote).history(),
                final(remote).error_slot(),
                secret_result(r),
            ),
            r matches Ok(s) ==> s.is_live(),
    {
        match ops::run_handle_op(remote, conn.raw_opt(), HandleOp::SecretLookupByUuid, uuid, 0, 0) {
            Ok(h) => Ok(Secret::new(h)),
            Err(e) => Err(e),
        }
    }

    /// Looks a secret up by what it is used for, with the same contract as a
    /// lookup by identifier.
    pub fn lookup_by_usage<R: Remote>(
        conn: &Connect,
        remote: &mut R,
        usagetype: i32,
        usageid: &str,
    ) -> (r: Result<Secret, Error>)
        ensures
            ops::handle_post(
                conn.is_live(),
                conn.handle(),
                HandleOp::SecretLookupByUsage,
                usagetype as i64,
                0,
                old(remote).history(),
                final(remote).history(),
                final(remote).error_slot(),
                secret_result(r),
            ),
            r matches Ok(s) ==> s.is_live(),
    {
        match ops::run_handle_op(
            remote,
            conn.raw_opt(),
            HandleOp::SecretLookupByUsage,
            usageid,
            usagetype as i64,
            0,
        ) {
            Ok(h) => Ok(Secret::new(h)),
            Err(e) => Err(e),
        }
    }

    /// The secret's name. The answer is treated as an owned buffer: it is
    /// copied and then freed exactly once.
    pub fn get_name<R: Remote>(&self, remote: &mut R) -> (r: Result<String, Error>)
        ensures
            ops::str_post(
                self.is_live(),
                self.handle(),
                StrOp::SecretGetName,
                0,
                old(remote).history(),
                final(remote).history(),
                final(remote).error_slot(),
                r,
            ),
    {
        ops::run_str_op(remote, self.ptr, StrOp::SecretGetName, 0)
    }

    /// The identifier of the object the secret is used for. The answer is
    /// treated as an owned buffer: it is copied and then freed exactly once.
    pub fn get_usage_id<R: Remote>(&self, remote: &mut R) -> (r: Result<String, Error>)
        ensures
            ops::str_post(
                self.is_live(),
                self.handle(),
                StrOp::SecretGetUsageId,
                0,
                old(remote).history(),
                final(remote).history(),
                final(remote).error_slot(),
                r,
            ),
    {
        ops::run_str_op(remote, self.ptr, StrOp::SecretGetUsageId, 0)
    }

    /// The usage kind of the secret, as its raw number.
    pub fn get_usage_type<R: Remote>(&self, remote: &mut R) -> (r: Result<u32, Error>)
        ensures
            ops::u32_post(
                self.is_live(),
                self.handle(),
                IntOp::SecretGetUsageType,
                0,
                0,
                0,
                old(remote).history(),
                final(remote).history(),
                final(remote).error_slot(),
                r,
            ),
    {
        ops::run_u32_op(remote, self.ptr, IntOp::SecretGetUsageType, 0, 0, 0)
    }

    /// The secret's textual identifier, through the caller's own small
    /// buffer.
    pub fn get_uuid_string<R: Remote>(&self, remote: &mut R) -> (r: Result<String, Error>)
        ensures
            ops::fill_post(
                self.is_live(),
                self.handle(),
                FillStrOp::SecretGetUuid,
                old(remote).history(),
                final(remote).history(),
                final(remote).error_slot(),
                r,
            ),
    {
        ops::run_fill_str_op(remote, self.ptr, FillStrOp::SecretGetUuid)
    }

    /// The secret's description. The answer is an owned buffer: it is copied
    /// and then freed exactly once.
    pub fn get_xml_desc<R: Remote>(&self, remote: &mut R, flags: SecretXMLFlags) -> (r: Result<
        String,
        Error,
    >)
        ensures
            ops::str_post(
                self.is_live(),
                self.handle(),
                StrOp::SecretGetXmlDesc,
                flags.bits,
                old(remote).history(),
                final(remote).history(),
                final(remote).error_slot(),
                r,
            ),
    {
        ops::run_str_op(remote, self.ptr, StrOp::SecretGetXmlDesc, flags.bits())
    }

    /// Hands a byte value to the secret.
    pub fn set_value<R: Remote>(&self, remote: &mut R, value: &[u8], flags: u32) -> (r: Result<
        (),
        Error,
    >)
        ensures
            set_value_post(
                self.is_live(),
                self.handle(),
                value@.len() as usize,
                flags,
                old(remote).history(),
                final(remote).history(),
                final(remote).error_slot(),
                r,
            ),
    {
        match self.ptr {
            None => Err(Error::invalid()),
            Some(h) => {
                let ret = remote.set_value_op(h, value, flags);
                if ret == -1 {
                    Err(ops::capture(remote))
                } else {
                    Ok(())
                }
            },
        }
    }

    /// Reads the secret's value. The answer is an owned buffer: it is copied
    /// and then freed exactly once.
    pub fn get_value<R: Remote>(&self, remote: &mut R, flags: u32) -> (r: Result<Vec<u8>, Error>)
        ensures
            get_value_post(
                self.is_live(),
                self.handle(),
                flags,
                old(remote).history(),
                final(remote).history(),
                final(remote).error_slot(),
                r,
            ),
    {
        match self.ptr {
            None => Err(Error::invalid()),
            Some(h) => {
                let answer = remote.bytes_op(h, flags);
                match answer {
                    None => Err(ops::capture(remote)),
                    Some(buf) => {
                        let ghost gbuf = buf;
                        let RemoteBytes { id, data } = buf;
                        remote.free_buf(id);
                        proof {
                            assert(pushed2(
                                old(remote).history(),
                                remote.history(),
                                CallRecord::Bytes {
                                    handle: h,
                                    flags,
                                    ret_id: gbuf.id,
                                    count: gbuf.data@.len() as usize,
                                },
                                CallRecord::FreeBuf { id: gbuf.id },
                            ));
                        }
                        Ok(data)
                    },
                }
            },
        }
    }

    /// Removes the secret's persistent definition.
    pub fn undefine<R: Remote>(&self, remote: &mut R) -> (r: Result<(), Error>)
        ensures
            ops::unit_post(
                self.is_live(),
                self.handle(),
                IntOp::SecretUndefine,
                0,
                0,
                0,
                old(remote).history(),
                final(remote).history(),
                final(remote).error_slot(),
                r,
            ),
    {
        ops::run_unit_op(remote, self.ptr, IntOp::SecretUndefine, 0, 0, 0)
    }

    /// Releases the local proxy for the secret. A live wrapper issues the
    /// release call exactly once and becomes released even if that call
    /// fails; a released wrapper answers success without any remote call.
    pub fn free<R: Remote>(&mut self, remote: &mut R) -> (r: Result<(), Error>)
        ensures
            final(self).is_released(),
            ops::release_post(
                old(self).raw(),
                ObjectKind::Secret,
                old(remote).history(),
                final(remote).history(),
                final(remote).error_slot(),
                r,
            ),
    {
        ops::run_release(remote, &mut self.ptr, ObjectKind::Secret)
    }
}

} // verus!
