use luma::{
    decode_elements, decode_operation, element_bytes, shader_key, shape_bytes, Array,
    BufferContents, Buffers, EngineError, Executor, Operation, ReadbackAction, ReadbackEvent,
    ReadbackPhase, ShaderRegistry, ELEMENT_SIZE,
};

/// Host-side stand-ins for the GPU handles: the context is a name, a shader
/// module is its source text and a buffer is its bytes.
type HostExecutor = Executor<&'static str, String, Vec<u8>>;

fn host_buffers(dimensions: &[usize; 4], data: &[u32]) -> Buffers<Vec<u8>> {
    let contents = BufferContents::new(dimensions, data).unwrap();
    let staging = vec![0u8; contents.staging_size as usize];
    Buffers::new(contents.storage, staging, contents.dimensions, contents.staging_size)
}

fn registry_with(names: &[&str]) -> ShaderRegistry<String> {
    let files: Vec<(String, String)> = names
        .iter()
        .map(|n| (n.to_string(), format!("source of {}", n)))
        .collect();
    ShaderRegistry::from_modules(files)
}

fn host_executor(shaders: &[&str]) -> HostExecutor {
    Executor::new("device", Some(registry_with(shaders)))
}

/// Stands in for a shader that doubles each element in place.
fn run_doubling_shader(storage: &mut Vec<u8>) {
    let doubled: Vec<u32> = decode_elements(storage).iter().map(|x| x * 2).collect();
    *storage = element_bytes(&doubled);
}

#[test]
fn operation_keys() {
    assert_eq!(decode_operation(Operation::DOUBLE), "double");
    assert_eq!(decode_operation(Operation::ADD), "add");
    assert_eq!(decode_operation(Operation::SUBTRACT), "subtract");
    assert_eq!(decode_operation(Operation::MULTIPLY), "multiply");
    assert_eq!(decode_operation(Operation::DIVIDE), "divide");
}

#[test]
fn operation_from_key() {
    assert_eq!(Operation::from_key("divide"), Some(Operation::DIVIDE));
    assert_eq!(Operation::from_key("add"), Some(Operation::ADD));
    assert_eq!(Operation::from_key("Add"), None);
    assert_eq!(Operation::from_key("adder"), None);
    assert_eq!(Operation::from_key(""), None);
}

#[test]
fn shader_key_strips_the_extension() {
    assert_eq!(shader_key("double.wgsl"), "double");
    assert_eq!(shader_key("archive.tar.gz"), "archive.tar");
    assert_eq!(shader_key("README"), "README");
    assert_eq!(shader_key("trailing."), "trailing");
    assert_eq!(shader_key(""), "");
}

#[test]
fn registry_keeps_operation_files_only() {
    let mut registry: ShaderRegistry<u32> = ShaderRegistry::new();
    assert!(registry.module(Operation::DOUBLE).is_none());
    assert!(registry.register("double.wgsl", 1));
    assert!(!registry.register("notes.txt", 2));
    assert!(registry.register("double.spv", 3));
    assert_eq!(registry.module(Operation::DOUBLE), Some(&3));
    assert!(registry.module(Operation::ADD).is_none());
}

#[test]
fn registry_from_directory_listing() {
    let registry = registry_with(&["add.wgsl", "multiply.wgsl", "other.wgsl"]);
    assert_eq!(registry.module(Operation::ADD).map(|s| s.as_str()), Some("source of add.wgsl"));
    assert_eq!(
        registry.module(Operation::MULTIPLY).map(|s| s.as_str()),
        Some("source of multiply.wgsl")
    );
    assert!(registry.module(Operation::DOUBLE).is_none());
    assert!(registry.module(Operation::DIVIDE).is_none());
    let later = registry_with(&["divide.a", "divide.b"]);
    assert_eq!(later.module(Operation::DIVIDE).map(|s| s.as_str()), Some("source of divide.b"));
}

#[test]
fn buffer_contents_sizes() {
    let contents = BufferContents::new(&[3, 1, 1, 1], &[1u32, 2, 3]).unwrap();
    assert_eq!(contents.storage.len(), 12);
    assert_eq!(contents.storage, element_bytes(&[1, 2, 3]));
    assert_eq!(contents.staging_size, 12);
    assert_eq!(contents.dimensions.len(), 16);
    assert_eq!(shape_bytes(&[3, 1, 1, 1]), contents.dimensions);
    assert_eq!(decode_elements(&contents.dimensions), vec![3, 1, 1, 1]);
    let empty = BufferContents::new(&[0, 1, 1, 1], &[]).unwrap();
    assert_eq!(empty.storage.len(), 0);
    assert_eq!(empty.staging_size, 0);
}

#[test]
fn shape_holds_four_u32() {
    let bytes = shape_bytes(&[7, 0x0102_0304, 1, u32::MAX]);
    assert_eq!(bytes.len(), 16);
    assert_eq!(&bytes[0..4], &7u32.to_ne_bytes());
    assert_eq!(&bytes[4..8], &0x0102_0304u32.to_ne_bytes());
    assert_eq!(&bytes[12..16], &u32::MAX.to_ne_bytes());
}

#[test]
fn oversized_dimension_is_refused() {
    let too_big = u32::MAX as usize;
    assert!(BufferContents::new(&[too_big, 1, 1, 1], &[1]).is_ok());
    if let Some(over) = too_big.checked_add(1) {
        assert_eq!(BufferContents::new(&[1, 1, over, 1], &[1]).err(), Some(EngineError::DispatchFailed));
    }
}

#[test]
fn element_bytes_round_trip() {
    let data = [1u32, 0xdead_beef, 0, u32::MAX];
    let bytes = element_bytes(&data);
    assert_eq!(bytes.len(), 16);
    assert_eq!(&bytes[4..8], &0xdead_beefu32.to_ne_bytes());
    assert_eq!(decode_elements(&bytes), data.to_vec());
}

#[test]
fn decode_zero_fills_a_partial_element() {
    let bytes = [7u8, 0, 0, 0, 1];
    let out = decode_elements(&bytes);
    assert_eq!(out.len(), 2);
    assert_eq!(out[0], u32::from_ne_bytes([7, 0, 0, 0]));
    assert_eq!(out[1], u32::from_ne_bytes([1, 0, 0, 0]));
    assert!(decode_elements(&[]).is_empty());
}

#[test]
fn create_then_release_twice() {
    let mut ex = host_executor(&["double.wgsl"]);
    let array = Array::new(&mut ex, &[3, 1, 1, 1], host_buffers(&[3, 1, 1, 1], &[1, 2, 3])).unwrap();
    let key = array.key();
    assert!(ex.contains(key));
    array.release(&mut ex);
    assert!(!ex.contains(key));
    ex.drop(key);
    assert!(!ex.contains(key));
    assert_eq!(ex.lookup(key).err(), Some(EngineError::BufferNotFound));
}

#[test]
fn created_arrays_have_distinct_ids() {
    let mut ex = host_executor(&["double.wgsl"]);
    let a = Array::new(&mut ex, &[2, 1, 1, 1], host_buffers(&[2, 1, 1, 1], &[1, 2])).unwrap();
    let b = Array::new(&mut ex, &[3, 1, 1, 1], host_buffers(&[3, 1, 1, 1], &[7, 8, 9])).unwrap();
    assert_ne!(a.key(), b.key());
    assert_ne!(a.id(), b.id());
    assert_eq!(ex.lookup(a.key()).unwrap().size(), 8);
    assert_eq!(ex.lookup(b.key()).unwrap().size(), 12);
    assert_eq!(decode_elements(ex.lookup(b.key()).unwrap().storage_buffer()), vec![7, 8, 9]);
    a.release(&mut ex);
    assert!(ex.contains(b.key()));
    assert_eq!(b.dimensions(), [3, 1, 1, 1]);
}

#[test]
fn array_id_is_hyphenated_uuid_of_its_key() {
    let mut ex = host_executor(&[]);
    let a = Array::new(&mut ex, &[1, 1, 1, 1], host_buffers(&[1, 1, 1, 1], &[5])).unwrap();
    let text = a.id();
    assert_eq!(text.len(), 36);
    for (i, c) in text.chars().enumerate() {
        if i == 8 || i == 13 || i == 18 || i == 23 {
            assert_eq!(c, '-');
        } else {
            assert!(c.is_ascii_hexdigit() && !c.is_ascii_uppercase());
        }
    }
    let parsed = uuid::Uuid::parse_str(&text).unwrap();
    assert_eq!(parsed.as_u128(), a.key());
    assert_eq!(parsed.get_version_num(), 4);
    assert_ne!(text, a.key().to_string());
}

#[test]
fn missing_shader_is_not_supported() {
    let mut ex = host_executor(&["add.wgsl"]);
    let a = Array::new(&mut ex, &[1, 1, 1, 1], host_buffers(&[1, 1, 1, 1], &[4])).unwrap();
    let before = ex.lookup(a.key()).unwrap().storage_buffer().clone();
    let r = ex.plan_dispatch(a.key(), Operation::DOUBLE);
    assert_eq!(r.err(), Some(EngineError::OperationNotSupported));
    assert!(ex.contains(a.key()));
    assert_eq!(ex.lookup(a.key()).unwrap().storage_buffer(), &before);
}

#[test]
fn no_shader_directory_means_no_operation() {
    let mut ex: HostExecutor = Executor::new("device", None);
    let a = Array::new(&mut ex, &[1, 1, 1, 1], host_buffers(&[1, 1, 1, 1], &[4])).unwrap();
    assert_eq!(ex.plan_dispatch(a.key(), Operation::ADD).err(), Some(EngineError::OperationNotSupported));
}

#[test]
fn unknown_id_is_buffer_not_found() {
    let ex = host_executor(&["double.wgsl"]);
    assert_eq!(ex.plan_dispatch(42, Operation::DOUBLE).err(), Some(EngineError::BufferNotFound));
    assert_eq!(ex.lookup(0).err(), Some(EngineError::BufferNotFound));
}

#[test]
fn no_context_means_no_buffers() {
    let mut ex: HostExecutor = Executor::default();
    let r = Array::new(&mut ex, &[1, 1, 1, 1], host_buffers(&[1, 1, 1, 1], &[4]));
    assert_eq!(r.err(), Some(EngineError::DeviceContextUnavailable));
    assert_eq!(ex.setup_buffers(1, host_buffers(&[1, 1, 1, 1], &[4])), Err(EngineError::DeviceContextUnavailable));
    assert!(!ex.contains(1));
    assert_eq!(ex.plan_dispatch(1, Operation::DOUBLE).err(), Some(EngineError::DeviceContextUnavailable));
    assert_eq!(ex.context_ref().err(), Some(EngineError::DeviceContextUnavailable));
}

#[test]
fn taken_id_is_refused() {
    let mut ex = host_executor(&[]);
    assert_eq!(ex.setup_buffers(9, host_buffers(&[1, 1, 1, 1], &[1])), Ok(()));
    assert_eq!(ex.setup_buffers(9, host_buffers(&[2, 1, 1, 1], &[1, 2])), Err(EngineError::IdentifierInUse));
    assert_eq!(ex.lookup(9).unwrap().size(), 4);
}

#[test]
fn dispatch_counts_elements_not_bytes() {
    let mut ex = host_executor(&["double.wgsl"]);
    let a = Array::new(&mut ex, &[5, 1, 1, 1], host_buffers(&[5, 1, 1, 1], &[1, 2, 3, 4, 5])).unwrap();
    let d = ex.plan_dispatch(a.key(), Operation::DOUBLE).unwrap();
    assert_eq!(d.workgroups, 5);
    assert_eq!(d.copy_size, 20);
    assert_eq!(*d.context, "device");
    assert_eq!(d.module, "source of double.wgsl");
    assert_eq!(ELEMENT_SIZE, 4);
}

#[test]
fn oversized_dispatch_fails() {
    let mut ex = host_executor(&["double.wgsl"]);
    let size = 4 * (u32::MAX as u64 + 1);
    ex.setup_buffers(3, Buffers::new(vec![], vec![], vec![], size)).unwrap();
    assert_eq!(ex.plan_dispatch(3, Operation::DOUBLE).err(), Some(EngineError::DispatchFailed));
    ex.setup_buffers(4, Buffers::new(vec![], vec![], vec![], size - 4)).unwrap();
    assert_eq!(ex.plan_dispatch(4, Operation::DOUBLE).unwrap().workgroups, u32::MAX);
}

/// Runs the read-back protocol against host buffers, with a guard that
/// refuses any read of the staging view outside the mapped phase.
fn host_readback(ex: &HostExecutor, key: u128, op: Operation, map_ok: bool) -> Result<Vec<u32>, EngineError> {
    let d = ex.plan_dispatch(key, op)?;
    let mut storage = d.buffers.storage_buffer().clone();
    let mut staging = d.buffers.staging_buffer().clone();
    let mut copied: Vec<u8> = Vec::new();
    let mut phase = ReadbackPhase::Idle;
    let mut pumps = 0;
    loop {
        let event = match phase.action() {
            ReadbackAction::Submit => {
                run_doubling_shader(&mut storage);
                staging[..d.copy_size as usize].copy_from_slice(&storage[..d.copy_size as usize]);
                ReadbackEvent::Done
            }
            ReadbackAction::RequestMap => ReadbackEvent::Done,
            ReadbackAction::Pump => {
                pumps += 1;
                if pumps < 3 {
                    ReadbackEvent::Pending
                } else if map_ok {
                    ReadbackEvent::MapReady
                } else {
                    ReadbackEvent::MapError
                }
            }
            ReadbackAction::CopyAndUnmap => {
                assert!(phase.view_exposed());
                copied = staging.clone();
                ReadbackEvent::Done
            }
            ReadbackAction::Deliver => {
                assert!(!phase.view_exposed());
                return Ok(decode_elements(&copied));
            }
            ReadbackAction::Fail(e) => return Err(e),
        };
        phase = phase.step(event);
    }
}

#[test]
fn double_round_trip() {
    let mut ex = host_executor(&["double.wgsl"]);
    let a = Array::new(&mut ex, &[3, 1, 1, 1], host_buffers(&[3, 1, 1, 1], &[1u32, 2, 3])).unwrap();
    assert_eq!(host_readback(&ex, a.key(), Operation::DOUBLE, true), Ok(vec![2, 4, 6]));
    a.release(&mut ex);
}

#[test]
fn failed_mapping_is_readback_failed() {
    let mut ex = host_executor(&["double.wgsl"]);
    let a = Array::new(&mut ex, &[1, 1, 1, 1], host_buffers(&[1, 1, 1, 1], &[1])).unwrap();
    assert_eq!(host_readback(&ex, a.key(), Operation::DOUBLE, false), Err(EngineError::ReadbackFailed));
    assert!(ex.contains(a.key()));
}

#[test]
fn readback_phases_in_order() {
    let mut p = ReadbackPhase::Idle;
    assert_eq!(p.action(), ReadbackAction::Submit);
    p = p.step(ReadbackEvent::Done);
    assert_eq!(p, ReadbackPhase::Submitted);
    assert_eq!(p.action(), ReadbackAction::RequestMap);
    p = p.step(ReadbackEvent::Done);
    assert_eq!(p, ReadbackPhase::MappingRequested);
    assert_eq!(p.step(ReadbackEvent::Pending), ReadbackPhase::MappingRequested);
    assert_eq!(p.step(ReadbackEvent::Closed), ReadbackPhase::MapFailed);
    p = p.step(ReadbackEvent::MapReady);
    assert_eq!(p, ReadbackPhase::Mapped);
    assert!(p.view_exposed());
    assert_eq!(p.action(), ReadbackAction::CopyAndUnmap);
    p = p.step(ReadbackEvent::Done);
    assert_eq!(p, ReadbackPhase::Unmapped);
    assert!(p.is_final());
    assert_eq!(p.action(), ReadbackAction::Deliver);
}

#[test]
fn no_view_after_unmap() {
    let events = [
        ReadbackEvent::Done,
        ReadbackEvent::Pending,
        ReadbackEvent::MapReady,
        ReadbackEvent::MapError,
        ReadbackEvent::Closed,
    ];
    let mut p = ReadbackPhase::Unmapped;
    for _ in 0..3 {
        for e in events {
            p = p.step(e);
            assert_eq!(p, ReadbackPhase::Unmapped);
            assert!(!p.view_exposed());
            assert_ne!(p.action(), ReadbackAction::CopyAndUnmap);
        }
    }
    let mut f = ReadbackPhase::MapFailed;
    for e in events {
        f = f.step(e);
        assert_eq!(f.action(), ReadbackAction::Fail(EngineError::ReadbackFailed));
    }
}

#[test]
fn context_installed_once() {
    let mut ex: HostExecutor = Executor::default();
    assert!(ex.install_context("first"));
    assert!(!ex.install_context("second"));
    assert!(!ex.install_context("third"));
    assert_eq!(ex.context_ref().ok(), Some(&"first"));
    let mut ready = host_executor(&[]);
    assert!(!ready.install_context("other"));
    assert_eq!(ready.context_ref().ok(), Some(&"device"));
}

#[test]
fn shaders_can_be_replaced() {
    let mut ex: HostExecutor = Executor::new("device", None);
    ex.set_shaders(Some(registry_with(&["subtract.wgsl"])));
    let a = Array::new(&mut ex, &[1, 1, 1, 1], host_buffers(&[1, 1, 1, 1], &[1])).unwrap();
    assert!(ex.plan_dispatch(a.key(), Operation::SUBTRACT).is_ok());
}

#[test]
fn error_messages() {
    assert_eq!(EngineError::ReadbackFailed.message(), "failed to run compute on gpu");
    assert_eq!(EngineError::AdapterUnavailable.message(), "found no adapters");
    assert_ne!(EngineError::BufferNotFound.message(), EngineError::OperationNotSupported.message());
}
