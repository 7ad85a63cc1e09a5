//! The standard interface objects of loadable resources: the application
//! and PEI program objects, and the table objects with the byte layouts of
//! their tables.

use core::marker::PhantomData;
use vstd::prelude::*;

use super::pdt;
use super::pid;
use super::properties::{
    array_count, array_read, array_write, first_with_pid, plan_array_write, read_array, read_outcome,
    read_single, single_read, AccessPolicy, PropertyAccess, PropertyDescriptor,
};
use super::traits::{
    InterfaceObject, PropertyError, PropertyReadRequest, PropertyWriteRequest, WriteResponse,
};
use crate::address::{be16_bytes, be16_from, hi_byte, lo_byte};
use crate::objects::tables::{
    cascaded_event, lsm_write_ok, mcb_encode, reported_error, run_action, run_transition,
    written_run_event, lsm_step, HasLoadStateMachine, HasRunStateMachine, LoadControlPolicy, LoadState,
    RelativeAlloc,
    RunAction, RunnableApplication, RunnableView, Table, TableMemory, TableView,
};

verus! {

/// The application program object (type 3): the load and run state
/// control properties of an application program, its version and the PEI
/// type it requires.
pub struct ApplicationProgramObject<'a, T: HasLoadStateMachine> {
    pub app: &'a mut RunnableApplication<T>,
    /// The address a relative allocation assigns.
    pub alloc_address: u32,
    pub program_version: [u8; 5],
    pub pei_type: u8,
}

impl<'a, T: HasLoadStateMachine> ApplicationProgramObject<'a, T> {
    /// The program behind the object.
    pub open spec fn program(&self) -> RunnableView<T> {
        (*self.app)@
    }

    /// An object around `app`, with version and PEI type zero.
    pub fn new(app: &'a mut RunnableApplication<T>, alloc_address: u32) -> (r: Self)
        ensures
            r.program() == old(app)@,
            *final(app) == *final(r.app),
            r.alloc_address == alloc_address,
            r.program_version@ == seq![0u8, 0u8, 0u8, 0u8, 0u8],
            r.pei_type == 0,
    {
        ApplicationProgramObject { app, alloc_address, program_version: [0u8; 5], pei_type: 0 }
    }

    /// An object around `app` with the given version and PEI type.
    pub fn with_info(
        app: &'a mut RunnableApplication<T>,
        alloc_address: u32,
        program_version: [u8; 5],
        pei_type: u8,
    ) -> (r: Self)
        ensures
            r.program() == old(app)@,
            *final(app) == *final(r.app),
            r.alloc_address == alloc_address,
            r.program_version == program_version,
            r.pei_type == pei_type,
    {
        ApplicationProgramObject { app, alloc_address, program_version, pei_type }
    }

    /// The program version.
    pub fn program_version(&self) -> (r: &[u8; 5])
        ensures
            *r == self.program_version,
    {
        &self.program_version
    }

    /// Set the program version.
    pub fn set_program_version(&mut self, version: [u8; 5])
        ensures
            final(self).program_version == version,
            final(self).pei_type == old(self).pei_type,
            final(self).alloc_address == old(self).alloc_address,
            final(self).app == old(self).app,
    {
        self.program_version = version;
    }

    /// The PEI type the program requires.
    pub fn pei_type(&self) -> (r: &u8)
        ensures
            *r == self.pei_type,
    {
        &self.pei_type
    }

    /// Set the PEI type.
    pub fn set_pei_type(&mut self, pei_type: u8)
        ensures
            final(self).pei_type == pei_type,
            final(self).program_version == old(self).program_version,
            final(self).alloc_address == old(self).alloc_address,
            final(self).app == old(self).app,
    {
        self.pei_type = pei_type;
    }

    /// A write to the load state control property. The answer echoes the
    /// new load state; the run action is what a completed load or an
    /// unload started in the run state machine, for the caller to report.
    pub fn write_load_state_control(&mut self, data: &[u8]) -> (r: (WriteResponse, Option<RunAction>))
        requires
            old(self).program().table.lsm_inv(),
            lsm_write_ok(old(self).program().table.lsm_view(), data@),
        ensures
            ({
                let (t, action) = T::lsm_next(
                    old(self).program().table.lsm_view(),
                    data@,
                    Some(old(self).alloc_address),
                );
                let pre = old(self).program();
                let post = final(self).program();
                &&& post.table.lsm_inv()
                &&& post.table.lsm_view() == t
                &&& r.0 matches WriteResponse::Data(b) && b.contents() == seq![t.state.code()]
                &&& match cascaded_event(action) {
                    Some(e) => {
                        &&& post.run_state == run_transition(
                            pre.run_state,
                            e,
                            t.state == LoadState::Loaded,
                        )
                        &&& r.1 == run_action(pre.run_state, post.run_state, e)
                    },
                    None => post.run_state == pre.run_state && r.1 is None,
                }
            }),
            *final(final(self).app) == *final(old(self).app),
            final(self).alloc_address == old(self).alloc_address,
            final(self).program_version == old(self).program_version,
            final(self).pei_type == old(self).pei_type,
    {
        let (state, action) = self.app.write_load_state_control(data, self.alloc_address);
        (WriteResponse::byte(state), action)
    }

    /// A write to the run state control property. The answer echoes the new
    /// run state; the run action is the one to report, if any.
    pub fn write_run_state_control(&mut self, data: &[u8]) -> (r: (WriteResponse, Option<RunAction>))
        ensures
            ({
                let pre = old(self).program();
                let post = final(self).program();
                &&& post.table == pre.table
                &&& r.0 matches WriteResponse::Data(b) && b.contents() == seq![post.run_state.code()]
                &&& data@.len() == 0 ==> post == pre && r.1 is None
                &&& data@.len() > 0 ==> {
                    let event = written_run_event(data@[0]);
                    &&& post.run_state == run_transition(
                        pre.run_state,
                        event,
                        pre.table.lsm_view().state == LoadState::Loaded,
                    )
                    &&& r.1 == run_action(pre.run_state, post.run_state, event)
                }
            }),
            *final(final(self).app) == *final(old(self).app),
            final(self).alloc_address == old(self).alloc_address,
            final(self).program_version == old(self).program_version,
            final(self).pei_type == old(self).pei_type,
    {
        let (state, action) = self.app.write_run_state_control(data);
        (WriteResponse::byte(state), action)
    }

    /// The load state control property: the load state octet.
    pub fn load_state_control(&self) -> (r: [u8; 1])
        ensures
            r@ == seq![self.program().table.lsm_view().state.code()],
    {
        self.app.inner().read_lsm()
    }

    /// The run state control property: the run state octet.
    pub fn run_state_control(&self) -> (r: [u8; 1])
        ensures
            r@ == seq![self.program().run_state.code()],
    {
        self.app.read_rsm()
    }

    /// The table reference property: the program's base address, big-endian.
    pub fn table_reference(&self) -> (r: [u8; 4])
        ensures
            r@ == be32_octets(self.program().table.lsm_view().table_reference),
    {
        u32_be_octets(self.app.inner().table_reference())
    }

    /// The memory control block property.
    pub fn mcb_table(&self) -> (r: [u8; 8])
        ensures
            r@ == mcb_encode(self.program().table.lsm_view().mcb),
    {
        self.app.inner().mcb_bytes()
    }

    /// The error code property: the last load error while in the error
    /// state, 0 otherwise.
    pub fn error_code(&self) -> (r: [u8; 1])
        ensures
            r@ == seq![reported_error(self.program().table.lsm_view())],
    {
        let r = [self.app.inner().last_error_code()];
        assert(r@ =~= seq![reported_error(self.program().table.lsm_view())]);
        r
    }
}

/// The PEI program object (type 5): the load and run state control of the
/// second application program, which this stack keeps without side effects.
pub struct PeiProgramObject<'a, T: HasLoadStateMachine> {
    pub pei: &'a mut RunnableApplication<T>,
    /// The address a relative allocation assigns.
    pub alloc_address: u32,
    pub program_version: [u8; 5],
    pub pei_type: u8,
}

impl<'a, T: HasLoadStateMachine> PeiProgramObject<'a, T> {
    /// The program behind the object.
    pub open spec fn program(&self) -> RunnableView<T> {
        (*self.pei)@
    }

    /// An object around `pei` with the given version and PEI type zero.
    pub fn new(pei: &'a mut RunnableApplication<T>, alloc_address: u32, program_version: [u8; 5]) -> (r: Self)
        ensures
            r.program() == old(pei)@,
            *final(pei) == *final(r.pei),
            r.alloc_address == alloc_address,
            r.program_version == program_version,
            r.pei_type == 0,
    {
        PeiProgramObject { pei, alloc_address, program_version, pei_type: 0 }
    }

    /// The program version.
    pub fn program_version(&self) -> (r: &[u8; 5])
        ensures
            *r == self.program_version,
    {
        &self.program_version
    }

    /// A write to the load state control property, as on the application
    /// program object.
    pub fn write_load_state_control(&mut self, data: &[u8]) -> (r: (WriteResponse, Option<RunAction>))
        requires
            old(self).program().table.lsm_inv(),
            lsm_write_ok(old(self).program().table.lsm_view(), data@),
        ensures
            ({
                let (t, action) = T::lsm_next(
                    old(self).program().table.lsm_view(),
                    data@,
                    Some(old(self).alloc_address),
                );
                let pre = old(self).program();
                let post = final(self).program();
                &&& post.table.lsm_inv()
                &&& post.table.lsm_view() == t
                &&& r.0 matches WriteResponse::Data(b) && b.contents() == seq![t.state.code()]
                &&& match cascaded_event(action) {
                    Some(e) => {
                        &&& post.run_state == run_transition(
                            pre.run_state,
                            e,
                            t.state == LoadState::Loaded,
                        )
                        &&& r.1 == run_action(pre.run_state, post.run_state, e)
                    },
                    None => post.run_state == pre.run_state && r.1 is None,
                }
            }),
            *final(final(self).pei) == *final(old(self).pei),
            final(self).alloc_address == old(self).alloc_address,
            final(self).program_version == old(self).program_version,
            final(self).pei_type == old(self).pei_type,
    {
        let (state, action) = self.pei.write_load_state_control(data, self.alloc_address);
        (WriteResponse::byte(state), action)
    }

    /// A write to the run state control property, as on the application
    /// program object.
    pub fn write_run_state_control(&mut self, data: &[u8]) -> (r: (WriteResponse, Option<RunAction>))
        ensures
            ({
                let pre = old(self).program();
                let post = final(self).program();
                &&& post.table == pre.table
                &&& r.0 matches WriteResponse::Data(b) && b.contents() == seq![post.run_state.code()]
                &&& data@.len() == 0 ==> post == pre && r.1 is None
                &&& data@.len() > 0 ==> {
                    let event = written_run_event(data@[0]);
                    &&& post.run_state == run_transition(
                        pre.run_state,
                        event,
                        pre.table.lsm_view().state == LoadState::Loaded,
                    )
                    &&& r.1 == run_action(pre.run_state, post.run_state, event)
                }
            }),
            *final(final(self).pei) == *final(old(self).pei),
            final(self).alloc_address == old(self).alloc_address,
            final(self).program_version == old(self).program_version,
            final(self).pei_type == old(self).pei_type,
    {
        let (state, action) = self.pei.write_run_state_control(data);
        (WriteResponse::byte(state), action)
    }

    /// The table reference property: the PEI table's base address,
    /// big-endian.
    pub fn table_reference(&self) -> (r: [u8; 4])
        ensures
            r@ == be32_octets(self.program().table.lsm_view().table_reference),
    {
        u32_be_octets(self.pei.inner().table_reference())
    }
}

// ============================================================================
// Table interface objects
// ============================================================================

/// The properties of a table object, in order: the table property
/// announces as many elements as the table memory holds entries.
pub open spec fn table_descriptors<S: TableObjectSpec>(table_len: nat) -> Seq<PropertyDescriptor> {
    seq![
        PropertyDescriptor {
            pid: pid::OBJECT_TYPE,
            pdt: pdt::UNSIGNED_INT,
            max_elements: 1,
            access: PropertyAccess::ReadOnly,
            read_level: 3,
            write_level: 0,
            policy: AccessPolicy::read_open_write_tool_spec(),
        },
        PropertyDescriptor {
            pid: pid::LOAD_STATE_CONTROL,
            pdt: pdt::CONTROL,
            max_elements: 1,
            access: PropertyAccess::ReadWrite,
            read_level: 3,
            write_level: 1,
            policy: AccessPolicy::read_open_write_tool_spec(),
        },
        PropertyDescriptor {
            pid: pid::TABLE_REFERENCE,
            pdt: pdt::UNSIGNED_LONG,
            max_elements: 1,
            access: PropertyAccess::ReadOnly,
            read_level: 3,
            write_level: 0,
            policy: AccessPolicy::read_open_write_tool_spec(),
        },
        PropertyDescriptor {
            pid: pid::TABLE,
            pdt: S::table_pdt_id(),
            max_elements: (table_len / S::entry_octets()) as u16,
            access: PropertyAccess::ReadWrite,
            read_level: 3,
            write_level: 3,
            policy: AccessPolicy::read_open_write_tool_spec(),
        },
        PropertyDescriptor {
            pid: pid::MCB_TABLE,
            pdt: pdt::GENERIC_08,
            max_elements: 1,
            access: PropertyAccess::ReadOnly,
            read_level: 3,
            write_level: 0,
            policy: AccessPolicy::read_open_write_tool_spec(),
        },
        PropertyDescriptor {
            pid: pid::ERROR_CODE,
            pdt: pdt::UNSIGNED_CHAR,
            max_elements: 1,
            access: PropertyAccess::ReadOnly,
            read_level: 3,
            write_level: 0,
            policy: AccessPolicy::read_open_write_tool_spec(),
        },
    ]
}

/// The index of property `id` among the table object's properties.
pub open spec fn table_property_index(id: u16) -> Option<int> {
    if id == pid::OBJECT_TYPE {
        Some(0)
    } else if id == pid::LOAD_STATE_CONTROL {
        Some(1)
    } else if id == pid::TABLE_REFERENCE {
        Some(2)
    } else if id == pid::TABLE {
        Some(3)
    } else if id == pid::MCB_TABLE {
        Some(4)
    } else if id == pid::ERROR_CODE {
        Some(5)
    } else {
        None
    }
}

/// The table object's properties have distinct IDs: the first descriptor
/// of property `id` is the one `table_property_index` names.
proof fn lemma_table_pid_index<S: TableObjectSpec>(len: nat, id: u16)
    ensures
        first_with_pid(table_descriptors::<S>(len), id) == table_property_index(id),
{
    let ds = table_descriptors::<S>(len);
    let d1 = ds.drop_first();
    let d2 = d1.drop_first();
    let d3 = d2.drop_first();
    let d4 = d3.drop_first();
    let d5 = d4.drop_first();
    let d6 = d5.drop_first();
    assert(d6.len() == 0);
    assert(first_with_pid(d6, id) is None);
    assert(d5.len() == 1 && d5[0] == ds[5]);
    assert(first_with_pid(d5, id) == if id == pid::ERROR_CODE {
        Some(0int)
    } else {
        None
    });
    assert(d4[0] == ds[4]);
    assert(first_with_pid(d4, id) == if id == pid::MCB_TABLE {
        Some(0int)
    } else if id == pid::ERROR_CODE {
        Some(1int)
    } else {
        None
    });
    assert(d3[0] == ds[3]);
    assert(first_with_pid(d3, id) == if id == pid::TABLE {
        Some(0int)
    } else if id == pid::MCB_TABLE {
        Some(1int)
    } else if id == pid::ERROR_CODE {
        Some(2int)
    } else {
        None
    });
    assert(d2[0] == ds[2]);
    assert(first_with_pid(d2, id) == if id == pid::TABLE_REFERENCE {
        Some(0int)
    } else if id == pid::TABLE {
        Some(1int)
    } else if id == pid::MCB_TABLE {
        Some(2int)
    } else if id == pid::ERROR_CODE {
        Some(3int)
    } else {
        None
    });
    assert(d1[0] == ds[1]);
    assert(first_with_pid(d1, id) == if id == pid::LOAD_STATE_CONTROL {
        Some(0int)
    } else if id == pid::TABLE_REFERENCE {
        Some(1int)
    } else if id == pid::TABLE {
        Some(2int)
    } else if id == pid::MCB_TABLE {
        Some(3int)
    } else if id == pid::ERROR_CODE {
        Some(4int)
    } else {
        None
    });
}

/// What a read of property `id` of a table object over `v` gives.
pub open spec fn table_property_read<S: TableObjectSpec>(
    v: TableView,
    id: u16,
    start: u16,
    count: u16,
    buf_len: nat,
) -> Result<Seq<u8>, PropertyError> {
    if id == pid::OBJECT_TYPE {
        single_read(
            seq![hi_byte(S::object_type_id()), lo_byte(S::object_type_id())],
            start,
            count,
            buf_len,
        )
    } else if id == pid::LOAD_STATE_CONTROL {
        single_read(seq![v.state.code()], start, count, buf_len)
    } else if id == pid::TABLE_REFERENCE {
        single_read(be32_octets(v.table_reference), start, count, buf_len)
    } else if id == pid::TABLE {
        array_read(v.bytes, S::entry_octets(), S::count_prefixed(), start, count, buf_len)
    } else if id == pid::MCB_TABLE {
        single_read(mcb_encode(v.mcb), start, count, buf_len)
    } else if id == pid::ERROR_CODE {
        single_read(seq![reported_error(v)], start, count, buf_len)
    } else {
        Err(PropertyError::InvalidPropertyId)
    }
}

/// The element count of property `id` of a table object over `v`.
pub open spec fn table_element_count<S: TableObjectSpec>(v: TableView, id: u16) -> Result<
    u16,
    PropertyError,
> {
    if id == pid::TABLE {
        Ok(array_count(v.bytes, S::entry_octets(), S::count_prefixed()) as u16)
    } else if table_property_index(id) is Some {
        Ok(1)
    } else {
        Err(PropertyError::InvalidPropertyId)
    }
}

/// The interface object of a loadable table: its object type, load state
/// control, table reference, the table itself as an array property, the
/// memory control block and the error code.
pub struct TableInterfaceObject<'a, T: TableMemory, P: LoadControlPolicy, S: TableObjectSpec> {
    pub table: &'a mut Table<T, P>,
    /// The address a relative allocation assigns.
    pub alloc_address: u32,
    pub layout: PhantomData<S>,
}

/// The address table object (type 1).
pub type AddressTableObject<'a, T, P = RelativeAlloc> = TableInterfaceObject<'a, T, P, AddressTableSpec>;

/// The association table object (type 2).
pub type AssociationTableObject<'a, T, P = RelativeAlloc> = TableInterfaceObject<
    'a,
    T,
    P,
    AssociationTableSpec,
>;

/// The group object table object (type 9).
pub type GroupObjectTableObject<'a, T, P = RelativeAlloc> = TableInterfaceObject<
    'a,
    T,
    P,
    GroupObjectTableSpec,
>;

impl<'a, T: TableMemory, P: LoadControlPolicy, S: TableObjectSpec> TableInterfaceObject<'a, T, P, S> {
    /// The table behind the object.
    pub open spec fn table_view(&self) -> TableView {
        (*self.table)@
    }

    /// Whether the table behind the object holds its capacity.
    pub open spec fn table_wf(&self) -> bool {
        (*self.table).wf()
    }

    /// An object around `table`; a relative allocation assigns
    /// `alloc_address` to it.
    pub fn new(table: &'a mut Table<T, P>, alloc_address: u32) -> (r: Self)
        ensures
            r.table_view() == old(table)@,
            r.table_wf() == old(table).wf(),
            r.alloc_address == alloc_address,
            *final(table) == *final(r.table),
    {
        TableInterfaceObject { table, alloc_address, layout: PhantomData }
    }

    fn descriptor(&self, idx: u16) -> (r: PropertyDescriptor)
        requires
            idx < 6,
        ensures
            r == table_descriptors::<S>(self.table_view().bytes.len())[idx as int],
    {
        let policy = AccessPolicy::read_open_write_tool();
        if idx == 0 {
            PropertyDescriptor::new(pid::OBJECT_TYPE, pdt::UNSIGNED_INT, 1, PropertyAccess::ReadOnly, 3, 0, policy)
        } else if idx == 1 {
            PropertyDescriptor::new(
                pid::LOAD_STATE_CONTROL,
                pdt::CONTROL,
                1,
                PropertyAccess::ReadWrite,
                3,
                1,
                policy,
            )
        } else if idx == 2 {
            PropertyDescriptor::new(
                pid::TABLE_REFERENCE,
                pdt::UNSIGNED_LONG,
                1,
                PropertyAccess::ReadOnly,
                3,
                0,
                policy,
            )
        } else if idx == 3 {
            let len = self.table.data_ref().len();
            let max: u16 = #[verifier::truncate] ((len / S::entry_size()) as u16);
            PropertyDescriptor::new(pid::TABLE, S::table_pdt(), max, PropertyAccess::ReadWrite, 3, 3, policy)
        } else if idx == 4 {
            PropertyDescriptor::new(pid::MCB_TABLE, pdt::GENERIC_08, 1, PropertyAccess::ReadOnly, 3, 0, policy)
        } else {
            PropertyDescriptor::new(pid::ERROR_CODE, pdt::UNSIGNED_CHAR, 1, PropertyAccess::ReadOnly, 3, 0, policy)
        }
    }
}

impl<'a, T: TableMemory, P: LoadControlPolicy, S: TableObjectSpec> InterfaceObject for TableInterfaceObject<
    'a,
    T,
    P,
    S,
> {
    open spec fn descriptors(&self) -> Seq<PropertyDescriptor> {
        table_descriptors::<S>(self.table_view().bytes.len())
    }

    /// A write needs a table that holds its capacity, and a load state
    /// control write that completes a load needs the requested size to fit.
    open spec fn accepts_write(&self, req: PropertyWriteRequest) -> bool {
        &&& self.table_wf()
        &&& req.pid == pid::LOAD_STATE_CONTROL ==> lsm_write_ok(self.table_view(), req.data@)
    }

    /// The interface object type.
    fn object_type(&self) -> (r: u16)
        ensures
            r == S::object_type_id(),
    {
        S::object_type()
    }

    /// The number of properties.
    fn property_count(&self) -> (r: u16)
        ensures
            r == 6,
    {
        6
    }

    /// The descriptor of the property at `prop_idx`.
    fn property_descriptor_by_index(&self, prop_idx: u16) -> (r: Option<PropertyDescriptor>)
        ensures
            r == if prop_idx < 6 {
                Some(table_descriptors::<S>(self.table_view().bytes.len())[prop_idx as int])
            } else {
                None
            },
    {
        if prop_idx < 6 {
            Some(self.descriptor(prop_idx))
        } else {
            None
        }
    }

    /// The index and descriptor of property `id`.
    fn property_descriptor_by_id(&self, id: u16) -> (r: Option<(u16, PropertyDescriptor)>)
        ensures
            r == match table_property_index(id) {
                Some(i) => Some(
                    (i as u16, table_descriptors::<S>(self.table_view().bytes.len())[i]),
                ),
                None => None,
            },
    {
        proof {
            lemma_table_pid_index::<S>(self.table_view().bytes.len(), id);
        }
        let idx: u16 = if id == pid::OBJECT_TYPE {
            0
        } else if id == pid::LOAD_STATE_CONTROL {
            1
        } else if id == pid::TABLE_REFERENCE {
            2
        } else if id == pid::TABLE {
            3
        } else if id == pid::MCB_TABLE {
            4
        } else if id == pid::ERROR_CODE {
            5
        } else {
            return None;
        };
        Some((idx, self.descriptor(idx)))
    }

    /// Read property `req.pid` into `buf`.
    fn read_property(&self, req: PropertyReadRequest, buf: &mut [u8]) -> (r: Result<
        usize,
        PropertyError,
    >)
        ensures
            read_outcome(
                r,
                table_property_read::<S>(
                    self.table_view(),
                    req.pid,
                    req.start_idx,
                    req.count,
                    old(buf)@.len(),
                ),
                old(buf)@,
                final(buf)@,
            ),
    {
        if req.pid == pid::OBJECT_TYPE {
            let octets = be16_bytes(S::object_type());
            read_single(&octets, req.start_idx, req.count, buf)
        } else if req.pid == pid::LOAD_STATE_CONTROL {
            let octets = self.table.read_lsm();
            read_single(&octets, req.start_idx, req.count, buf)
        } else if req.pid == pid::TABLE_REFERENCE {
            let octets = u32_be_octets(self.table.table_reference());
            read_single(&octets, req.start_idx, req.count, buf)
        } else if req.pid == pid::TABLE {
            read_array(
                self.table.data_ref(),
                S::entry_size(),
                S::has_count_prefix(),
                req.start_idx,
                req.count,
                buf,
            )
        } else if req.pid == pid::MCB_TABLE {
            let octets = self.table.mcb_bytes();
            read_single(&octets, req.start_idx, req.count, buf)
        } else if req.pid == pid::ERROR_CODE {
            let octets = [self.table.last_error_code()];
            assert(octets@ =~= seq![reported_error(self.table_view())]);
            read_single(&octets, req.start_idx, req.count, buf)
        } else {
            Err(PropertyError::InvalidPropertyId)
        }
    }

    /// Write property `req.pid`. A load state control write runs the load
    /// state machine and answers with the new state; a table write stores
    /// the octets and echoes them; the other properties are read-only.
    fn write_property(&mut self, req: PropertyWriteRequest) -> (r: Result<WriteResponse, PropertyError>)
        ensures
            final(self).table_wf(),
            final(self).alloc_address == old(self).alloc_address,
            *final(final(self).table) == *final(old(self).table),
            ({
                let v = old(self).table_view();
                let id = req.pid;
                if id == pid::LOAD_STATE_CONTROL {
                    let (t, _) = lsm_step::<T, P>(v, req.data@, Some(old(self).alloc_address));
                    &&& final(self).table_view() == t
                    &&& r matches Ok(WriteResponse::Data(b)) && b.contents() == seq![t.state.code()]
                } else if id == pid::TABLE {
                    match array_write(v.bytes, S::entry_octets(), S::count_prefixed(), req.start_idx, req.data@) {
                        Ok(bytes) => final(self).table_view() == (TableView { bytes, ..v }) && r matches Ok(
                            WriteResponse::Echo,
                        ),
                        Err(e) => final(self).table_view() == v && r == Err::<WriteResponse, PropertyError>(e),
                    }
                } else {
                    &&& final(self).table_view() == v
                    &&& r == Err::<WriteResponse, PropertyError>(
                        if table_property_index(id) is Some {
                            PropertyError::WriteNotAllowed
                        } else {
                            PropertyError::InvalidPropertyId
                        },
                    )
                }
            }),
    {
        if req.pid == pid::LOAD_STATE_CONTROL {
            self.table.write_lsm(req.data, Some(self.alloc_address));
            let state = self.table.read_lsm();
            Ok(WriteResponse::byte(state[0]))
        } else if req.pid == pid::TABLE {
            let table_len = self.table.data_ref().len();
            match plan_array_write(
                self.table.data_ref(),
                S::entry_size(),
                S::has_count_prefix(),
                req.start_idx,
                req.data,
            ) {
                Ok((off, n)) => {
                    let (head, _) = req.data.split_at(n);
                    assert(head@ == req.data@.take(n as int));
                    assert(off + head@.len() <= table_len);
                    self.table.write(off, head);
                    Ok(WriteResponse::Echo)
                },
                Err(e) => Err(e),
            }
        } else if req.pid == pid::OBJECT_TYPE || req.pid == pid::TABLE_REFERENCE || req.pid
            == pid::MCB_TABLE || req.pid == pid::ERROR_CODE {
            Err(PropertyError::WriteNotAllowed)
        } else {
            Err(PropertyError::InvalidPropertyId)
        }
    }

    /// The element count of property `id`: one for the single-element
    /// properties, the table's count for the table property.
    fn property_element_count(&self, id: u16) -> (r: Result<u16, PropertyError>)
        ensures
            r == table_element_count::<S>(self.table_view(), id),
    {
        if id == pid::TABLE {
            let data = self.table.data_ref();
            let entry = S::entry_size();
            let n: usize = if S::has_count_prefix() {
                if data.len() >= 2 {
                    be16_from(data[0], data[1]) as usize
                } else {
                    0
                }
            } else {
                data.len() / entry
            };
            Ok(#[verifier::truncate] (n as u16))
        } else if id == pid::OBJECT_TYPE || id == pid::LOAD_STATE_CONTROL || id == pid::TABLE_REFERENCE
            || id == pid::MCB_TABLE || id == pid::ERROR_CODE {
            Ok(1)
        } else {
            Err(PropertyError::InvalidPropertyId)
        }
    }
}

/// The four big-endian octets of `v`.
pub open spec fn be32_octets(v: u32) -> Seq<u8> {
    seq![(v / 16777216) as u8, ((v / 65536) % 256) as u8, ((v / 256) % 256) as u8, (v % 256) as u8]
}

fn u32_be_octets(v: u32) -> (r: [u8; 4])
    ensures
        r@ == be32_octets(v),
{
    let r = [(v / 16777216) as u8, ((v / 65536) % 256) as u8, ((v / 256) % 256) as u8, (v % 256) as u8];
    assert(r@ =~= be32_octets(v));
    r
}


/// How a table interface object lays out its table: the interface object
/// type, the size of one entry, the property data type of the table
/// property, and whether the table starts with an entry count.
pub trait TableObjectSpec {
    spec fn object_type_id() -> u16;

    spec fn entry_octets() -> nat;

    spec fn table_pdt_id() -> u8;

    spec fn count_prefixed() -> bool;

    fn object_type() -> (r: u16)
        ensures
            r == Self::object_type_id(),
    ;

    fn entry_size() -> (r: usize)
        ensures
            r == Self::entry_octets(),
            r > 0,
    ;

    fn table_pdt() -> (r: u8)
        ensures
            r == Self::table_pdt_id(),
    ;

    fn has_count_prefix() -> (r: bool)
        ensures
            r == Self::count_prefixed(),
    ;
}

/// The address table object (type 1): two-octet group addresses.
pub struct AddressTableSpec;

impl TableObjectSpec for AddressTableSpec {
    open spec fn object_type_id() -> u16 {
        1
    }

    open spec fn entry_octets() -> nat {
        2
    }

    /// PDT_UNSIGNED_INT.
    open spec fn table_pdt_id() -> u8 {
        pdt::UNSIGNED_INT
    }

    open spec fn count_prefixed() -> bool {
        true
    }

    fn object_type() -> (r: u16) {
        1
    }

    fn entry_size() -> (r: usize) {
        2
    }

    fn table_pdt() -> (r: u8) {
        pdt::UNSIGNED_INT
    }

    fn has_count_prefix() -> (r: bool) {
        true
    }
}

/// The association table object (type 2): a TSAP and an ASAP per entry.
pub struct AssociationTableSpec;

impl TableObjectSpec for AssociationTableSpec {
    open spec fn object_type_id() -> u16 {
        2
    }

    open spec fn entry_octets() -> nat {
        4
    }

    /// PDT_GENERIC_04.
    open spec fn table_pdt_id() -> u8 {
        pdt::GENERIC_04
    }

    open spec fn count_prefixed() -> bool {
        true
    }

    fn object_type() -> (r: u16) {
        2
    }

    fn entry_size() -> (r: usize) {
        4
    }

    fn table_pdt() -> (r: u8) {
        pdt::GENERIC_04
    }

    fn has_count_prefix() -> (r: bool) {
        true
    }
}

/// The group object table object (type 9): flags and type per entry.
pub struct GroupObjectTableSpec;

impl TableObjectSpec for GroupObjectTableSpec {
    open spec fn object_type_id() -> u16 {
        9
    }

    open spec fn entry_octets() -> nat {
        2
    }

    /// PDT_GENERIC_02.
    open spec fn table_pdt_id() -> u8 {
        pdt::GENERIC_02
    }

    open spec fn count_prefixed() -> bool {
        true
    }

    fn object_type() -> (r: u16) {
        9
    }

    fn entry_size() -> (r: usize) {
        2
    }

    fn table_pdt() -> (r: u8) {
        pdt::GENERIC_02
    }

    fn has_count_prefix() -> (r: bool) {
        true
    }
}

} // verus!
