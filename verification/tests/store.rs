use rfastspeech::error::Error;
use rfastspeech::tensors::SafeTensorsHandler;

/// Build a well-formed safetensors archive holding one zeroed
/// two-element float tensor per name.
fn archive(names: &[&str]) -> Vec<u8> {
    let mut header = String::from("{");
    let mut payload: Vec<u8> = Vec::new();
    for (i, name) in names.iter().enumerate() {
        if i > 0 {
            header.push(',');
        }
        let start = i * 8;
        let end = start + 8;
        header.push_str(&format!(
            "\"{name}\":{{\"dtype\":\"F32\",\"shape\":[2],\"data_offsets\":[{start},{end}]}}"
        ));
        payload.extend_from_slice(&[0u8; 8]);
    }
    header.push('}');
    let header_bytes = header.into_bytes();
    let mut out: Vec<u8> = Vec::new();
    out.extend_from_slice(&(header_bytes.len() as u64).to_le_bytes());
    out.extend_from_slice(&header_bytes);
    out.extend_from_slice(&payload);
    out
}

fn mmap_of(bytes: &[u8]) -> memmap2::Mmap {
    let mut m = memmap2::MmapMut::map_anon(bytes.len()).unwrap();
    m.copy_from_slice(bytes);
    m.make_read_only().unwrap()
}

#[test]
fn store_contains_loaded_names() {
    let bytes = archive(&["dense.weight", "dense.bias"]);
    let store = SafeTensorsHandler::load(mmap_of(&bytes), "model.safetensors").unwrap();
    assert!(store.contains("dense.weight"));
    assert!(store.contains("dense.bias"));
    assert!(!store.contains("missing.tensor"));
}

#[test]
fn store_contains_is_exact_match() {
    let bytes = archive(&["dense.weight"]);
    let store = SafeTensorsHandler::load(mmap_of(&bytes), "model.safetensors").unwrap();
    assert!(store.contains("dense.weight"));
    assert!(!store.contains("dense"));
    assert!(!store.contains("dense.weight.extra"));
    assert!(!store.contains(""));
}

#[test]
fn store_rejects_garbage_bytes() {
    let bytes = vec![5_u8, 1, 7, 2, 3];
    let result = SafeTensorsHandler::load(mmap_of(&bytes), "model.safetensors");
    assert!(result.is_err());
}

#[test]
fn store_rejects_truncated_archive() {
    let mut bytes = archive(&["dense.weight", "dense.bias"]);
    bytes.truncate(bytes.len() - 4);
    let result = SafeTensorsHandler::load(mmap_of(&bytes), "model.safetensors");
    assert!(result.is_err());
}

#[test]
fn store_error_names_path_and_parser() {
    let bytes = vec![0_u8; 3];
    let err = SafeTensorsHandler::load(mmap_of(&bytes), "weights/model.safetensors").unwrap_err();
    match err {
        Error::WithPath { inner, path } => {
            assert_eq!(path, "weights/model.safetensors");
            match *inner {
                Error::Message(m) => assert!(m.starts_with("Safetensors -> ")),
                _ => panic!("expected a message under the path annotation"),
            }
        }
        _ => panic!("expected a path-annotated error"),
    }
}
