//! Entry points, compute half: everything the four ABI functions decide and
//! produce, stated over plain values. The raw-pointer shims that the host
//! actually calls live outside the verified library and only marshal bytes in
//! and out of these functions. Decode and validation failures surface here as
//! `None`, never as a panic: abnormal termination must not cross into the
//! host.

use vstd::prelude::*;

use crate::callback::CallbackPayload;
use crate::callback::prepare;
use crate::decoder::decode;
use crate::domain::domain_bytes;
use crate::domain::is_domain;
use crate::writer::copy_len;

verus! {

/// The fixed identification string, "Test Extension v.1.00".
pub open spec fn version_bytes() -> Seq<u8> {
    seq![
        84u8, 101u8, 115u8, 116u8, 32u8, 69u8, 120u8, 116u8, 101u8, 110u8, 115u8, 105u8, 111u8,
        110u8, 32u8, 118u8, 46u8, 49u8, 46u8, 48u8, 48u8,
    ]
}

/// The stub response of the multi-argument call, "Test Response".
pub open spec fn args_response_bytes() -> Seq<u8> {
    seq![84u8, 101u8, 115u8, 116u8, 32u8, 82u8, 101u8, 115u8, 112u8, 111u8, 110u8, 115u8, 101u8]
}

/// The stub callback name, "Test Extension".
pub open spec fn callback_name_bytes() -> Seq<u8> {
    seq![84u8, 101u8, 115u8, 116u8, 32u8, 69u8, 120u8, 116u8, 101u8, 110u8, 115u8, 105u8, 111u8,
        110u8]
}

/// The stub callback function, "Test Function".
pub open spec fn callback_func_bytes() -> Seq<u8> {
    seq![84u8, 101u8, 115u8, 116u8, 32u8, 70u8, 117u8, 110u8, 99u8, 116u8, 105u8, 111u8, 110u8]
}

/// The stub callback data, "Test Data".
pub open spec fn callback_data_bytes() -> Seq<u8> {
    seq![84u8, 101u8, 115u8, 116u8, 32u8, 68u8, 97u8, 116u8, 97u8]
}

/// The identification string as an owned vector.
pub fn version_text() -> (r: Vec<u8>)
    ensures
        r@ == version_bytes(),
{
    let a: [u8; 21] = [
        84u8, 101u8, 115u8, 116u8, 32u8, 69u8, 120u8, 116u8, 101u8, 110u8, 115u8, 105u8, 111u8,
        110u8, 32u8, 118u8, 46u8, 49u8, 46u8, 48u8, 48u8,
    ];
    let v = vstd::slice::slice_to_vec(&a);
    proof {
        assert(v@ =~= version_bytes());
    }
    v
}

/// The stub response as an owned vector.
pub fn args_response_text() -> (r: Vec<u8>)
    ensures
        r@ == args_response_bytes(),
{
    let a: [u8; 13] = [
        84u8, 101u8, 115u8, 116u8, 32u8, 82u8, 101u8, 115u8, 112u8, 111u8, 110u8, 115u8, 101u8,
    ];
    let v = vstd::slice::slice_to_vec(&a);
    proof {
        assert(v@ =~= args_response_bytes());
    }
    v
}

/// Version entry point: writes the fixed identification string into the
/// host's buffer. Succeeds for every capacity that has room for the
/// terminator; the only failure the host can observe is silent truncation.
pub fn version(buf: &mut Vec<u8>, capacity: usize) -> (r: Option<usize>)
    requires
        capacity <= old(buf).len(),
    ensures
        r is Some <==> capacity >= 1,
        r is None ==> final(buf)@ == old(buf)@,
        r is Some ==> ({
            let n = copy_len(version_bytes(), capacity as nat) as int;
            &&& r == Some(n as usize)
            &&& final(buf)@.len() == old(buf)@.len()
            &&& forall|i: int| 0 <= i < n ==> final(buf)@[i] == version_bytes()[i]
            &&& final(buf)@[n] == 0
            &&& forall|i: int| n < i < old(buf)@.len() ==> final(buf)@[i] == old(buf)@[i]
        }),
{
    let text = version_text();
    proof {
        assert(domain_bytes(version_bytes()));
    }
    crate::writer::write(&text, buf, capacity)
}

/// Single-string entry point: treats the host's request as a would-be domain
/// string and echoes it back through the buffer writer. An invalid request is
/// not an excuse to crash: nothing is written and nothing is returned.
pub fn extension(request: &Vec<u8>, buf: &mut Vec<u8>, capacity: usize) -> (r: Option<usize>)
    requires
        capacity <= old(buf).len(),
    ensures
        r is Some <==> domain_bytes(request@) && capacity >= 1,
        r is None ==> final(buf)@ == old(buf)@,
        r is Some ==> ({
            let n = copy_len(request@, capacity as nat) as int;
            &&& r == Some(n as usize)
            &&& final(buf)@.len() == old(buf)@.len()
            &&& forall|i: int| 0 <= i < n ==> final(buf)@[i] == request@[i]
            &&& final(buf)@[n] == 0
            &&& forall|i: int| n < i < old(buf)@.len() ==> final(buf)@[i] == old(buf)@[i]
        }),
{
    crate::writer::write(request, buf, capacity)
}

/// Multi-argument entry point: decodes the function name and the whole
/// argument list, and only then writes the (stub) response. If the name or
/// any argument fails to decode, nothing is written: the host sees no
/// response rather than a partial one, and never a crash.
pub fn extension_args(
    function_name: &Vec<u8>,
    args: &Vec<Vec<u8>>,
    buf: &mut Vec<u8>,
    capacity: usize,
) -> (r: Option<usize>)
    requires
        capacity <= old(buf).len(),
    ensures
        r is Some <==> {
            &&& domain_bytes(function_name@)
            &&& forall|i: int| 0 <= i < args@.len() ==> domain_bytes(args@[i]@)
            &&& capacity >= 1
        },
        r is None ==> final(buf)@ == old(buf)@,
        r is Some ==> ({
            let n = copy_len(args_response_bytes(), capacity as nat) as int;
            &&& r == Some(n as usize)
            &&& final(buf)@.len() == old(buf)@.len()
            &&& forall|i: int| 0 <= i < n ==> final(buf)@[i] == args_response_bytes()[i]
            &&& final(buf)@[n] == 0
            &&& forall|i: int| n < i < old(buf)@.len() ==> final(buf)@[i] == old(buf)@[i]
        }),
{
    if !is_domain(function_name) {
        return None;
    }
    match decode(args) {
        Ok(_decoded) => {
            let response = args_response_text();
            proof {
                assert(domain_bytes(args_response_bytes()));
            }
            crate::writer::write(&response, buf, capacity)
        },
        Err(_) => None,
    }
}

/// Callback registration, compute half: the payload of the one stub
/// invocation made upon registration. The strings are fixed and valid, so a
/// payload is always produced; the shim passes its three buffers to the
/// host's callback, transferring ownership.
pub fn register_payload() -> (r: Option<CallbackPayload>)
    ensures
        r is Some,
        r matches Some(p) ==> {
            &&& p.name@ == callback_name_bytes().push(0u8)
            &&& p.func@ == callback_func_bytes().push(0u8)
            &&& p.data@ == callback_data_bytes().push(0u8)
            &&& p.wf()
        },
{
    let name: [u8; 14] = [
        84u8, 101u8, 115u8, 116u8, 32u8, 69u8, 120u8, 116u8, 101u8, 110u8, 115u8, 105u8, 111u8,
        110u8,
    ];
    let func: [u8; 13] = [
        84u8, 101u8, 115u8, 116u8, 32u8, 70u8, 117u8, 110u8, 99u8, 116u8, 105u8, 111u8, 110u8,
    ];
    let data: [u8; 9] = [84u8, 101u8, 115u8, 116u8, 32u8, 68u8, 97u8, 116u8, 97u8];
    let name_v = vstd::slice::slice_to_vec(&name);
    let func_v = vstd::slice::slice_to_vec(&func);
    let data_v = vstd::slice::slice_to_vec(&data);
    proof {
        assert(name_v@ =~= callback_name_bytes());
        assert(func_v@ =~= callback_func_bytes());
        assert(data_v@ =~= callback_data_bytes());
        assert(domain_bytes(callback_name_bytes()));
        assert(domain_bytes(callback_func_bytes()));
        assert(domain_bytes(callback_data_bytes()));
    }
    prepare(&name_v, &func_v, &data_v)
}

} // verus!

