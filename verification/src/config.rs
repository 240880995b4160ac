//! Configuration of the manager.

use vstd::prelude::*;

verus! {

/// A server-side configuration for [`crate::manager::LiquidityManager`].
///
/// Allows end-users to configure options when using the manager to provide liquidity
/// services to clients.
pub struct LiquidityServiceConfig<S1, S2> {
    /// Optional server-side configuration for LSPS1 channel requests.
    pub lsps1_service_config: Option<S1>,
    /// Optional server-side configuration for JIT channels should you want to support them.
    pub lsps2_service_config: Option<S2>,
}

/// A client-side configuration for [`crate::manager::LiquidityManager`].
///
/// Allows end-users to configure options when using the manager to access liquidity services
/// from a provider.
pub struct LiquidityClientConfig<C1, C2> {
    /// Optional client-side configuration for LSPS1 channel requests.
    pub lsps1_client_config: Option<C1>,
    /// Optional client-side configuration for JIT channels.
    pub lsps2_client_config: Option<C2>,
}

} // verus!
