use vstd::prelude::*;
use std::marker::PhantomData;

verus! {

/// What happens to an allocation's contents once its last handle is gone.
///
/// The handles of this crate call `dispose` exactly once per allocation, after
/// every other handle to it has been released. Three strategies of the
/// `backdrop` crate are one: `TrivialStrategy`, `LeakStrategy` and
/// `ThreadStrategy` (which, like any thread spawn, fails only when the system
/// cannot start a thread). Its trash-queue and trash-thread strategies are not:
/// they panic or block when a disposal runs while their queue is in use, which
/// nothing here can rule out. A user may write their own.
pub trait Disposal<X> {
    fn dispose(item: X);
}

/// Relies on `backdrop::BackdropStrategy::execute`: the strategy `S` takes
/// ownership of `item` and disposes of it in its own way.
#[verifier::external_body]
fn execute_strategy<X, S: backdrop::BackdropStrategy<X>>(item: X) {
    S::execute(item)
}

#[verifier::external_type_specification]
#[verifier::external_body]
pub struct ExTrivialStrategy(backdrop::TrivialStrategy);

#[verifier::external_type_specification]
#[verifier::external_body]
pub struct ExLeakStrategy(backdrop::LeakStrategy);

#[verifier::external_type_specification]
#[verifier::external_body]
pub struct ExThreadStrategy(backdrop::ThreadStrategy);

impl<X> Disposal<X> for backdrop::TrivialStrategy {
    fn dispose(item: X) {
        execute_strategy::<X, backdrop::TrivialStrategy>(item)
    }
}

impl<X> Disposal<X> for backdrop::LeakStrategy {
    fn dispose(item: X) {
        execute_strategy::<X, backdrop::LeakStrategy>(item)
    }
}

impl<X: Send + 'static> Disposal<X> for backdrop::ThreadStrategy {
    fn dispose(item: X) {
        execute_strategy::<X, backdrop::ThreadStrategy>(item)
    }
}

/// The strategy that the `backdrop` crate runs when a kept allocation is
/// dropped: it hands the allocation to the disposal `S`.
pub struct Via<S>(PhantomData<S>);

impl<X, S: Disposal<X>> backdrop::BackdropStrategy<X> for Via<S> {
    fn execute(droppable: X) {
        S::dispose(droppable)
    }
}

} // verus!
