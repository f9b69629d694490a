use vstd::prelude::*;
use crate::errors::ThreadError;
use crate::security::{SecurityConfig, SecurityViolation};
use crate::observability::metrics::wrap_add;
use crate::perf::fast_paths::wrap_inc_usize;

verus! {

/// Counters of control-flow checks; they wrap around.
#[derive(Debug, Clone, Copy, PartialEq, Eq, Structural)]
pub struct CfiProtection {
    pub violations_detected: usize,
    pub calls_verified: u64,
    pub indirect_calls_protected: u64,
}

impl CfiProtection {
    /// All counters zero.
    pub fn new() -> (p: Self)
        ensures
            p == (CfiProtection { violations_detected: 0, calls_verified: 0, indirect_calls_protected: 0 }),
    {
        CfiProtection { violations_detected: 0, calls_verified: 0, indirect_calls_protected: 0 }
    }
}

/// `p` with one more violation.
pub open spec fn after_violation(p: CfiProtection) -> CfiProtection {
    CfiProtection { violations_detected: wrap_inc_usize(p.violations_detected), ..p }
}

/// `p` with one more verified call.
pub open spec fn after_verified(p: CfiProtection) -> CfiProtection {
    CfiProtection { calls_verified: wrap_add(p.calls_verified, 1), ..p }
}

/// The label of a function: its address.
#[derive(Debug, Clone, Copy, PartialEq, Eq, Structural)]
pub struct CfiLabel(pub u64);

impl CfiLabel {
    /// The label of the function at address `func_addr`.
    pub fn from_function(func_addr: usize) -> (l: Self)
        ensures
            l.0 == func_addr,
    {
        CfiLabel(func_addr as u64)
    }

    /// The label's value.
    pub fn raw(&self) -> (r: u64)
        ensures
            r == self.0,
    {
        self.0
    }

    /// Whether the label is that of the function at `expected`.
    pub fn verify(&self, expected: usize) -> (r: bool)
        ensures
            r == (self.0 == expected),
    {
        self.0 == expected as u64
    }
}

/// A function address kept with its label.
pub struct CfiProtectedFn {
    label: CfiLabel,
    func_addr: usize,
}

impl CfiProtectedFn {
    /// The protected address.
    pub closed spec fn addr(&self) -> usize {
        self.func_addr
    }

    /// The label kept.
    pub closed spec fn label_spec(&self) -> CfiLabel {
        self.label
    }

    /// The label matches the address.
    pub open spec fn wf(&self) -> bool {
        self.label_spec().0 == self.addr()
    }

    /// Protects the function at `func_addr`.
    pub fn new(func_addr: usize) -> (p: Self)
        ensures
            p.wf(),
            p.addr() == func_addr,
    {
        CfiProtectedFn { label: CfiLabel::from_function(func_addr), func_addr }
    }

    /// Runs `f`, the call through this function, after checking the label;
    /// a mismatch is counted and reported as a control-flow violation.
    pub fn call<R, F: FnOnce() -> R>(&self, f: F, protection: &mut CfiProtection) -> (r: Result<R, SecurityViolation>)
        requires
            f.requires(()),
        ensures
            self.wf() ==> r is Ok && *final(protection) == after_verified(*old(protection)),
            !self.wf() ==> r == Err::<R, SecurityViolation>(SecurityViolation::CfiViolation) && *final(protection) == after_violation(*old(protection)),
            r matches Ok(v) ==> f.ensures((), v),
    {
        if !self.label.verify(self.func_addr) {
            protection.violations_detected = protection.violations_detected.wrapping_add(1);
            return Err(SecurityViolation::CfiViolation);
        }
        protection.calls_verified = protection.calls_verified.wrapping_add(1);
        Ok(f())
    }
}

/// Whether `addr` can be the start of code: it is not null.
pub open spec fn code_address(addr: usize) -> bool {
    addr != 0
}

fn is_valid_code_address(addr: usize) -> (r: bool)
    ensures
        r == code_address(addr),
{
    addr != 0
}

/// Checks of indirect call targets.
pub struct IndirectCallGuard;

impl IndirectCallGuard {
    /// Whether `target` may be called indirectly: not null and a code
    /// address. An accepted target counts as verified.
    pub fn verify_call_target(target: usize, protection: &mut CfiProtection) -> (r: bool)
        ensures
            r == (target != 0 && code_address(target)),
            r ==> *final(protection) == after_verified(*old(protection)),
            !r && target == 0 ==> *final(protection) == *old(protection),
            !r && target != 0 ==> *final(protection) == after_violation(*old(protection)),
    {
        if target == 0 {
            return false;
        }
        if !is_valid_code_address(target) {
            protection.violations_detected = protection.violations_detected.wrapping_add(1);
            return false;
        }
        protection.calls_verified = protection.calls_verified.wrapping_add(1);
        true
    }

    /// Runs `f`, the call to `target`, when the target may be called; a
    /// refused target is reported as a control-flow violation.
    pub fn protected_call<R, F: FnOnce() -> R>(target: usize, f: F, protection: &mut CfiProtection) -> (r: Result<R, SecurityViolation>)
        requires
            f.requires(()),
        ensures
            target == 0 ==> r == Err::<R, SecurityViolation>(SecurityViolation::CfiViolation) && *final(protection) == *old(protection),
            target != 0 ==> r is Ok && *final(protection) == (CfiProtection {
                indirect_calls_protected: wrap_add(old(protection).indirect_calls_protected, 1),
                ..after_verified(*old(protection))
            }),
            r matches Ok(v) ==> f.ensures((), v),
    {
        if !Self::verify_call_target(target, protection) {
            return Err(SecurityViolation::CfiViolation);
        }
        protection.indirect_calls_protected = protection.indirect_calls_protected.wrapping_add(1);
        Ok(f())
    }
}

/// Whether `return_addr` can be a return into the function at
/// `expected_caller`: not null and less than 64 KiB away from it.
pub open spec fn plausible_return(return_addr: usize, expected_caller: usize) -> bool {
    return_addr != 0 && (if return_addr > expected_caller {
        return_addr - expected_caller
    } else {
        expected_caller - return_addr
    }) < 65536
}

/// Whether `return_addr` can be a return into `expected_caller`.
pub fn is_valid_return_address(return_addr: usize, expected_caller: usize) -> (r: bool)
    ensures
        r == plausible_return(return_addr, expected_caller),
{
    if return_addr == 0 {
        return false;
    }
    let diff = if return_addr > expected_caller {
        return_addr - expected_caller
    } else {
        expected_caller - return_addr
    };
    diff < 65536
}

/// A return address saved on entry, to be compared on exit.
pub struct ReturnAddressGuard {
    saved_return_address: usize,
    expected_caller: usize,
}

impl ReturnAddressGuard {
    /// The saved return address.
    pub closed spec fn saved(&self) -> usize {
        self.saved_return_address
    }

    /// The caller expected.
    pub closed spec fn caller(&self) -> usize {
        self.expected_caller
    }

    /// Saves `return_address`, read on entry of a function called from
    /// `expected_caller`.
    pub fn new(expected_caller: usize, return_address: usize) -> (g: Self)
        ensures
            g.saved() == return_address,
            g.caller() == expected_caller,
    {
        ReturnAddressGuard { saved_return_address: return_address, expected_caller }
    }

    /// Whether `current_return`, read on exit, is the saved one and a
    /// plausible return into the caller; a failure is counted.
    pub fn verify_return(&self, current_return: usize, protection: &mut CfiProtection) -> (r: bool)
        ensures
            r == (current_return == self.saved() && plausible_return(current_return, self.caller())),
            r ==> *final(protection) == *old(protection),
            !r ==> *final(protection) == after_violation(*old(protection)),
    {
        if current_return != self.saved_return_address {
            protection.violations_detected = protection.violations_detected.wrapping_add(1);
            return false;
        }
        if !is_valid_return_address(current_return, self.expected_caller) {
            protection.violations_detected = protection.violations_detected.wrapping_add(1);
            return false;
        }
        true
    }
}

/// The number of return addresses a shadow stack holds.
pub const SHADOW_STACK_SIZE: usize = 1024;

/// A second stack of return addresses, compared with the real ones.
pub struct CfiShadowStack {
    stack: [usize; 1024],
    top: usize,
}

impl View for CfiShadowStack {
    type V = Seq<usize>;

    /// The pushed addresses, oldest first.
    closed spec fn view(&self) -> Seq<usize> {
        self.stack@.subrange(0, self.top as int)
    }
}

impl CfiShadowStack {
    /// The top never passes the end of the storage.
    pub closed spec fn wf(&self) -> bool {
        self.top <= SHADOW_STACK_SIZE
    }

    /// An empty shadow stack.
    pub fn new() -> (s: Self)
        ensures
            s.wf(),
            s@ == Seq::<usize>::empty(),
    {
        CfiShadowStack { stack: [0usize; 1024], top: 0 }
    }

    /// Pushes `addr`; a full stack refuses it.
    pub fn push_return_address(&mut self, addr: usize) -> (r: Result<(), ThreadError>)
        requires
            old(self).wf(),
        ensures
            final(self).wf(),
            old(self)@.len() >= SHADOW_STACK_SIZE ==> r == Err::<(), ThreadError>(ThreadError::ResourceExhaustion)
                && final(self)@ == old(self)@,
            old(self)@.len() < SHADOW_STACK_SIZE ==> r is Ok && final(self)@ == old(self)@.push(addr),
    {
        let current_top = self.top;
        if current_top >= SHADOW_STACK_SIZE {
            return Err(ThreadError::ResourceExhaustion);
        }
        self.top = current_top + 1;
        self.stack[current_top] = addr;
        assert(self@ == old(self)@.push(addr));
        Ok(())
    }

    /// Pops the latest address; an empty stack is an invalid state.
    pub fn pop_return_address(&mut self) -> (r: Result<usize, ThreadError>)
        requires
            old(self).wf(),
        ensures
            final(self).wf(),
            old(self)@.len() == 0 ==> r == Err::<usize, ThreadError>(ThreadError::InvalidState) && final(self)@
                == old(self)@,
            old(self)@.len() > 0 ==> r == Ok::<usize, ThreadError>(old(self)@.last()) && final(self)@ == old(self)@.drop_last(),
    {
        let current_top = self.top;
        if current_top == 0 {
            return Err(ThreadError::InvalidState);
        }
        let new_top = current_top - 1;
        self.top = new_top;
        let addr = self.stack[new_top];
        assert(self@ == old(self)@.drop_last());
        Ok(addr)
    }

    /// Pops the latest address and compares it with `addr`; a mismatch or
    /// an empty stack is counted as a violation.
    pub fn verify_return(&mut self, addr: usize, protection: &mut CfiProtection) -> (r: bool)
        requires
            old(self).wf(),
        ensures
            final(self).wf(),
            r == (old(self)@.len() > 0 && old(self)@.last() == addr),
            old(self)@.len() > 0 ==> final(self)@ == old(self)@.drop_last(),
            old(self)@.len() == 0 ==> final(self)@ == old(self)@,
            r ==> *final(protection) == *old(protection),
            !r ==> *final(protection) == after_violation(*old(protection)),
    {
        match self.pop_return_address() {
            Ok(shadow_addr) => {
                if shadow_addr != addr {
                    protection.violations_detected = protection.violations_detected.wrapping_add(1);
                    false
                } else {
                    true
                }
            },
            Err(_) => {
                protection.violations_detected = protection.violations_detected.wrapping_add(1);
                false
            },
        }
    }
}

/// Whether `target` is a plausible x86-64 call target: not null and below
/// the kernel half of the address space.
pub fn verify_x86_64_call_target(target: usize) -> (r: bool)
    ensures
        r == (target != 0 && target < 0xFFFF800000000000u64),
{
    let addr = target as u64;
    if addr == 0 {
        return false;
    }
    if addr >= 0xFFFF800000000000u64 {
        return false;
    }
    true
}

/// Whether `target` is a plausible ARM64 call target: 4-byte aligned, not
/// null and below 2^60.
pub fn verify_arm64_call_target(target: usize) -> (r: bool)
    ensures
        r == (target % 4 == 0 && target != 0 && target < 0x1000000000000000u64),
{
    let addr = target as u64;
    if addr % 4 != 0 {
        return false;
    }
    if addr == 0 || addr >= 0x1000000000000000u64 {
        return false;
    }
    true
}

/// Counters of control-flow checks and whether they are on.
#[derive(Debug, Clone, Copy, PartialEq, Eq, Structural)]
pub struct CfiStats {
    pub violations_detected: usize,
    pub calls_verified: u64,
    pub indirect_calls_protected: u64,
    pub protection_enabled: bool,
}

/// Starts control-flow protection; nothing can fail.
pub fn init_cfi_protection(config: SecurityConfig) -> (r: Result<(), ThreadError>)
    ensures
        r is Ok,
{
    Ok(())
}

/// The counters of `protection`; protection counts as on.
pub fn get_cfi_stats(protection: &CfiProtection) -> (s: CfiStats)
    ensures
        s == (CfiStats {
            violations_detected: protection.violations_detected,
            calls_verified: protection.calls_verified,
            indirect_calls_protected: protection.indirect_calls_protected,
            protection_enabled: true,
        }),
{
    CfiStats {
        violations_detected: protection.violations_detected,
        calls_verified: protection.calls_verified,
        indirect_calls_protected: protection.indirect_calls_protected,
        protection_enabled: true,
    }
}

/// A matched call and return pass the shadow stack: after pushing `addr`,
/// the address compared at the return is `addr`, and popping it restores
/// the stack as it was before the call.
pub proof fn law_shadow_stack_call_return(stack: Seq<usize>, addr: usize)
    ensures
        stack.push(addr).len() > 0,
        stack.push(addr).last() == addr,
        stack.push(addr).drop_last() == stack,
{
    assert(stack.push(addr).drop_last() =~= stack);
}

} // verus!
