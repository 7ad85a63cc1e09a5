//! Interface objects: property buffers, requests and results, and the
//! traits through which the stack reaches typed properties.

pub mod pdt;
pub mod pid;
pub mod properties;
pub mod standard;
pub mod traits;

pub use properties::{AccessPolicy, PropertyAccess, PropertyDescriptionResponse, PropertyDescriptor};
pub use standard::{
    AddressTableObject, AddressTableSpec, ApplicationProgramObject, AssociationTableObject,
    AssociationTableSpec, GroupObjectTableObject, GroupObjectTableSpec, PeiProgramObject,
    TableInterfaceObject, TableObjectSpec,
};
pub use traits::{
    FullPropertyReadRequest, FullPropertyWriteRequest, FunctionPropertyRequest,
    FunctionPropertyResult, PropertyBuf, PropertyServiceHandler, PropertyError, PropertyLookup, PropertyReadRequest,
    PropertyWriteRequest, WriteResponse, MAX_FUNCTION_PROPERTY_RESPONSE, MAX_WRITE_RESPONSE_DATA,
    HasDomainAddress, HasMaxRetryCount, InterfaceObject, HasProperty, HasRoutingCount, InterfaceObjectsContext,
    Ipv4Property, LoadableInterfaceObject, PdtGeneric06, PdtUnsignedChar, PdtUnsignedInt,
    PdtUnsignedLong, StatePropertyValue,
};
