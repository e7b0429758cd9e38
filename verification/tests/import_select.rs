use rfastspeech::error::Error;
use rfastspeech::hf::{load_config, HFModel};
use rfastspeech::import::{import, select_model_files, FileEntry, Model};
use rfastspeech::tensors::SafeTensorsHandler;

fn file(path: &[u8]) -> FileEntry {
    FileEntry { path: path.to_vec(), is_file: true }
}

fn directory(path: &[u8]) -> FileEntry {
    FileEntry { path: path.to_vec(), is_file: false }
}

/// Build a well-formed safetensors archive holding one zeroed
/// two-element float tensor per name.
fn archive(names: &[&str]) -> Vec<u8> {
    let mut header = String::from("{");
    let mut payload: Vec<u8> = Vec::new();
    for (i, name) in names.iter().enumerate() {
        if i > 0 {
            header.push(',');
        }
        let start = i * 8;
        let end = start + 8;
        header.push_str(&format!(
            "\"{name}\":{{\"dtype\":\"F32\",\"shape\":[2],\"data_offsets\":[{start},{end}]}}"
        ));
        payload.extend_from_slice(&[0u8; 8]);
    }
    header.push('}');
    let header_bytes = header.into_bytes();
    let mut out: Vec<u8> = Vec::new();
    out.extend_from_slice(&(header_bytes.len() as u64).to_le_bytes());
    out.extend_from_slice(&header_bytes);
    out.extend_from_slice(&payload);
    out
}

fn mmap_of(bytes: &[u8]) -> memmap2::Mmap {
    let mut m = memmap2::MmapMut::map_anon(bytes.len()).unwrap();
    m.copy_from_slice(bytes);
    m.make_read_only().unwrap()
}

const DUMMY_TENSORS: [&str; 6] = [
    "dense.weight",
    "dense.bias",
    "intermediate.weight",
    "intermediate.bias",
    "layer_norm.weight",
    "layer_norm.bias",
];

fn dummy_model() -> HFModel {
    let config = load_config(b"{\"model_type\":\"dummy\"}", "dummy_model/config.json").unwrap();
    let bytes = archive(&DUMMY_TENSORS);
    let store = SafeTensorsHandler::load(mmap_of(&bytes), "dummy_model/model.safetensors").unwrap();
    HFModel::new(config, store)
}

#[test]
fn mod_import_simple() {
    let mut entries: Vec<FileEntry> = Vec::new();

    // Empty
    assert!(select_model_files(&entries).is_err());

    // Only config file
    entries.push(file(b"dummy_model/config.json"));
    assert!(select_model_files(&entries).is_err());

    // All required files
    entries.push(file(b"dummy_model/model.safetensors"));
    let selection = select_model_files(&entries).unwrap();
    assert_eq!(selection.config_index, 0);
    assert_eq!(selection.tensors_index, 1);

    let model = dummy_model();
    assert_eq!(model.config.model_type, "dummy");
    assert!(model.contains("dense.weight"));
    assert!(model.contains("dense.bias"));
    assert!(model.contains("intermediate.weight"));
    assert!(model.contains("intermediate.bias"));
    assert!(model.contains("layer_norm.weight"));
    assert!(model.contains("layer_norm.bias"));
}

#[test]
fn lib_import_simple() {
    // A directory without a model: the probe failed, the import reports it
    let probe: Result<HFModel, Error> = Err(Error::bail("config file not found"));
    assert!(import(probe).is_err());

    // A directory with a HuggingFace dummy model
    let imported = import(Ok(dummy_model())).unwrap();
    assert!(matches!(imported, Model::HuggingFace(_)));
}

#[test]
fn select_prefers_last_match() {
    let entries = vec![
        file(b"m/config.json"),
        file(b"m/a.safetensors"),
        file(b"m/sub/config.json"),
        file(b"m/b.safetensors"),
    ];
    let selection = select_model_files(&entries).unwrap();
    assert_eq!(selection.config_index, 2);
    assert_eq!(selection.tensors_index, 3);
}

#[test]
fn select_skips_directories_and_lookalikes() {
    let entries = vec![
        directory(b"m/config.json"),
        file(b"m/config.json.bak"),
        file(b"m/.safetensors"),
        file(b"m/safetensors"),
    ];
    assert!(select_model_files(&entries).is_err());
}

fn text_of(e: &Error) -> Option<&str> {
    match e {
        Error::Message(m) => Some(m),
        Error::WithBacktrace { inner, .. } => text_of(inner),
        _ => None,
    }
}

#[test]
fn select_reports_which_file_is_missing() {
    let none: Vec<FileEntry> = vec![file(b"m/readme.txt")];
    let err = select_model_files(&none).unwrap_err();
    assert_eq!(text_of(&err), Some("config file not found"));

    let only_config = vec![file(b"m/config.json")];
    let err = select_model_files(&only_config).unwrap_err();
    assert_eq!(text_of(&err), Some("safetensors file not found"));

    let only_tensors = vec![file(b"m/model.safetensors")];
    let err = select_model_files(&only_tensors).unwrap_err();
    assert_eq!(text_of(&err), Some("config file not found"));
}

#[test]
fn load_config_reads_model_type() {
    let config = load_config(
        b"{\"model_type\":\"bert\",\"hidden_size\":128}",
        "m/config.json",
    )
    .unwrap();
    assert_eq!(config.model_type, "bert");
}

#[test]
fn load_config_rejects_bad_json() {
    let err = load_config(b"{not json", "m/config.json").unwrap_err();
    match err {
        Error::WithPath { inner, path } => {
            assert_eq!(path, "m/config.json");
            assert!(matches!(*inner, Error::Message(_)));
        }
        _ => panic!("expected a path-annotated parse error"),
    }
}

#[test]
fn load_config_requires_string_model_type() {
    let err = load_config(b"{\"other\":1}", "m/config.json").unwrap_err();
    match err {
        Error::WithPath { inner, path } => {
            assert_eq!(path, "m/config.json");
            match *inner {
                Error::Message(m) => {
                    assert_eq!(m, "Config json doesn't contain model_type (str).")
                }
                _ => panic!("expected the static reason"),
            }
        }
        _ => panic!("expected a path-annotated error"),
    }

    let err = load_config(b"{\"model_type\":7}", "m/config.json").unwrap_err();
    assert!(matches!(err, Error::WithPath { .. }));
}
