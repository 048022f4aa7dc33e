use vector_store_uploader::chunker::Chunk;
use vector_store_uploader::pipeline::{
    extraction_failure, summary_text, Action, Event, Phase, Pipeline,
};
use vector_store_uploader::storage::{
    record_id, StorageFailure, StoredRecord, TEXT_FIELD,
};

/// A vector store that lives in memory and writes down every call.
struct MockVectorStorage {
    vectors: Vec<(String, Vec<f32>, String)>,
    calls: Vec<String>,
    clear_fails: Option<String>,
    write_fails_at: Option<(usize, String)>,
    writes: usize,
}

impl MockVectorStorage {
    fn new() -> Self {
        MockVectorStorage {
            vectors: Vec::new(),
            calls: Vec::new(),
            clear_fails: None,
            write_fails_at: None,
            writes: 0,
        }
    }

    fn get_vectors(&self) -> Vec<(String, Vec<f32>, String)> {
        self.vectors.clone()
    }

    fn store_vector(&mut self, id: String, vector: Vec<f32>, text: String) -> Result<(), String> {
        self.calls.push(format!("store {}", id));
        let position = self.writes;
        self.writes += 1;
        if let Some((at, why)) = &self.write_fails_at {
            if *at == position {
                return Err(why.clone());
            }
        }
        self.vectors.push((id, vector, text));
        Ok(())
    }

    fn clear(&mut self) -> Result<(), String> {
        self.calls.push("clear".to_string());
        if let Some(why) = &self.clear_fails {
            return Err(why.clone());
        }
        self.vectors.clear();
        Ok(())
    }
}

/// An embedding service that gives every chunk a vector made from its index,
/// but for the chunks that it is told to fail.
struct MockEmbeddingCreator {
    fails: Vec<(usize, String)>,
    asked: Vec<usize>,
}

impl MockEmbeddingCreator {
    fn new() -> Self {
        MockEmbeddingCreator { fails: Vec::new(), asked: Vec::new() }
    }

    fn failing_at(index: usize, why: &str) -> Self {
        MockEmbeddingCreator { fails: vec![(index, why.to_string())], asked: Vec::new() }
    }

    fn create_embedding(&mut self, chunk: &Chunk) -> Result<Vec<f32>, String> {
        self.asked.push(chunk.index);
        for (index, why) in &self.fails {
            if *index == chunk.index {
                return Err(why.clone());
            }
        }
        Ok(vec![chunk.index as f32, 0.2, 0.3])
    }
}

/// Carries out the requests of an upload against the two mocks. The
/// embeddings are asked for last chunk first, and put back in chunk order.
fn drive(
    start: (Pipeline<Vec<f32>>, Action<Vec<f32>>),
    creator: &mut MockEmbeddingCreator,
    storage: &mut MockVectorStorage,
) -> Result<String, String> {
    let (mut pipeline, mut action) = start;
    loop {
        let event = match action {
            Action::Clear => Event::Cleared(storage.clear()),
            Action::Embed(chunks) => {
                storage.calls.push(format!("embed {}", chunks.len()));
                let mut outcomes: Vec<Result<Vec<f32>, String>> =
                    chunks.iter().rev().map(|chunk| creator.create_embedding(chunk)).collect();
                outcomes.reverse();
                Event::Embedded(outcomes)
            }
            Action::Store(record) => {
                Event::Stored(storage.store_vector(record.id, record.vector, record.text))
            }
            Action::Finish(result) => {
                assert!(matches!(pipeline.phase(), Phase::Finished));
                return result;
            }
        };
        let (next, then) = pipeline.step(event);
        pipeline = next;
        action = then.expect("the event answers the request");
    }
}

fn process(
    text: &str,
    creator: &mut MockEmbeddingCreator,
    storage: &mut MockVectorStorage,
) -> Result<String, String> {
    drive(Pipeline::start(text), creator, storage)
}

#[test]
fn test_mock_vector_storage() {
    let mut storage = MockVectorStorage::new();

    assert!(storage
        .store_vector("test_id".to_string(), vec![0.1, 0.2, 0.3], "test text".to_string())
        .is_ok());

    let vectors = storage.get_vectors();
    assert_eq!(vectors.len(), 1);
    assert_eq!(vectors[0].0, "test_id");
    assert_eq!(vectors[0].1, vec![0.1, 0.2, 0.3]);
    assert_eq!(vectors[0].2, "test text");

    assert!(storage.clear().is_ok());
    assert_eq!(storage.get_vectors().len(), 0);
}

#[test]
fn text_of_exactly_one_chunk_is_embedded_and_stored_once() {
    let text = "я".repeat(8000);
    let mut creator = MockEmbeddingCreator::new();
    let mut storage = MockVectorStorage::new();
    let result = process(&text, &mut creator, &mut storage);
    assert_eq!(result, Ok("Успешно обработано и загружено 1 чанков".to_string()));
    assert_eq!(creator.asked, vec![0]);
    assert_eq!(storage.calls, vec!["clear", "embed 1", "store chunk_0"]);
    assert_eq!(storage.get_vectors(), vec![("chunk_0".to_string(), vec![0.0, 0.2, 0.3], text)]);
}

#[test]
fn three_chunks_are_stored_in_index_order() {
    let text = "a".repeat(8000) + &"b".repeat(8000) + "c";
    let mut creator = MockEmbeddingCreator::new();
    let mut storage = MockVectorStorage::new();
    let result = process(&text, &mut creator, &mut storage);
    assert_eq!(result, Ok("Успешно обработано и загружено 3 чанков".to_string()));
    assert_eq!(
        storage.calls,
        vec!["clear", "embed 3", "store chunk_0", "store chunk_1", "store chunk_2"]
    );
    assert_eq!(creator.asked, vec![2, 1, 0]);
    let vectors = storage.get_vectors();
    assert_eq!(vectors.len(), 3);
    assert_eq!(vectors[0], ("chunk_0".to_string(), vec![0.0, 0.2, 0.3], "a".repeat(8000)));
    assert_eq!(vectors[1], ("chunk_1".to_string(), vec![1.0, 0.2, 0.3], "b".repeat(8000)));
    assert_eq!(vectors[2], ("chunk_2".to_string(), vec![2.0, 0.2, 0.3], "c".to_string()));
}

#[test]
fn empty_text_clears_the_store_and_uploads_nothing() {
    let mut creator = MockEmbeddingCreator::new();
    let mut storage = MockVectorStorage::new();
    storage.vectors.push(("chunk_0".to_string(), vec![9.0], "old".to_string()));
    let result = process("", &mut creator, &mut storage);
    assert_eq!(result, Ok("Успешно обработано и загружено 0 чанков".to_string()));
    assert!(creator.asked.is_empty());
    assert_eq!(storage.calls, vec!["clear"]);
    assert!(storage.get_vectors().is_empty());
}

#[test]
fn records_of_an_earlier_upload_do_not_survive() {
    let mut creator = MockEmbeddingCreator::new();
    let mut storage = MockVectorStorage::new();
    let long = "x".repeat(20000);
    assert!(process(&long, &mut creator, &mut storage).is_ok());
    assert_eq!(storage.get_vectors().len(), 3);
    assert!(process("short", &mut creator, &mut storage).is_ok());
    assert_eq!(
        storage.get_vectors(),
        vec![("chunk_0".to_string(), vec![0.0, 0.2, 0.3], "short".to_string())]
    );
}

#[test]
fn failed_clear_ends_the_upload_before_any_embedding() {
    let mut creator = MockEmbeddingCreator::new();
    let mut storage = MockVectorStorage::new();
    storage.clear_fails = Some("Ошибка очистки векторов: unreachable".to_string());
    let result = process("some text", &mut creator, &mut storage);
    assert_eq!(result, Err("Ошибка очистки векторов: unreachable".to_string()));
    assert!(creator.asked.is_empty());
    assert_eq!(storage.calls, vec!["clear"]);
}

#[test]
fn failed_embedding_fails_the_upload_and_stops_the_writes() {
    let text = "x".repeat(8000 * 4);
    let mut creator = MockEmbeddingCreator::failing_at(
        2,
        "Не удалось создать эмбеддинг после 3 попыток: timeout",
    );
    let mut storage = MockVectorStorage::new();
    let result = process(&text, &mut creator, &mut storage);
    assert_eq!(
        result,
        Err("Не удалось создать эмбеддинг после 3 попыток: timeout".to_string())
    );
    assert_eq!(creator.asked, vec![3, 2, 1, 0]);
    assert_eq!(storage.calls, vec!["clear", "embed 4", "store chunk_0", "store chunk_1"]);
}

#[test]
fn failed_embedding_of_the_first_chunk_writes_nothing() {
    let text = "x".repeat(8000 * 2);
    let mut creator = MockEmbeddingCreator::failing_at(0, "no");
    let mut storage = MockVectorStorage::new();
    let result = process(&text, &mut creator, &mut storage);
    assert_eq!(result, Err("no".to_string()));
    assert_eq!(storage.calls, vec!["clear", "embed 2"]);
}

#[test]
fn first_failed_embedding_in_index_order_is_reported() {
    let text = "x".repeat(8000 * 3);
    let mut creator = MockEmbeddingCreator::new();
    creator.fails = vec![(2, "later".to_string()), (1, "earlier".to_string())];
    let mut storage = MockVectorStorage::new();
    let result = process(&text, &mut creator, &mut storage);
    assert_eq!(result, Err("earlier".to_string()));
    assert_eq!(storage.calls, vec!["clear", "embed 3", "store chunk_0"]);
}

#[test]
fn failed_write_ends_the_upload_and_keeps_what_was_written() {
    let text = "x".repeat(8000 * 3);
    let mut creator = MockEmbeddingCreator::new();
    let mut storage = MockVectorStorage::new();
    storage.write_fails_at = Some((1, "Ошибка сохранения вектора: quota".to_string()));
    let result = process(&text, &mut creator, &mut storage);
    assert_eq!(result, Err("Ошибка сохранения вектора: quota".to_string()));
    assert_eq!(storage.calls, vec!["clear", "embed 3", "store chunk_0", "store chunk_1"]);
    assert_eq!(storage.get_vectors().len(), 1);
    assert_eq!(storage.get_vectors()[0].0, "chunk_0");
}

#[test]
fn extracted_text_is_uploaded_like_any_text() {
    let mut creator = MockEmbeddingCreator::new();
    let mut storage = MockVectorStorage::new();
    let start = Pipeline::start_extracted(Ok("text of a document".to_string()));
    let result = drive(start, &mut creator, &mut storage);
    assert_eq!(result, Ok("Успешно обработано и загружено 1 чанков".to_string()));
    assert_eq!(storage.calls, vec!["clear", "embed 1", "store chunk_0"]);
}

#[test]
fn failed_extraction_ends_the_upload_before_the_store_is_touched() {
    let mut creator = MockEmbeddingCreator::new();
    let mut storage = MockVectorStorage::new();
    let start = Pipeline::start_extracted(Err("PDF error: Invalid file header".to_string()));
    let result = drive(start, &mut creator, &mut storage);
    assert_eq!(
        result,
        Err("Ошибка извлечения текста из PDF: PDF error: Invalid file header".to_string())
    );
    assert!(storage.calls.is_empty());
    assert!(creator.asked.is_empty());
}

#[test]
fn upload_starts_by_clearing() {
    let (pipeline, action) = Pipeline::<Vec<f32>>::start(&"x".repeat(8001));
    assert!(matches!(action, Action::Clear));
    assert!(matches!(pipeline.phase(), Phase::Clearing));
    assert_eq!(pipeline.chunk_count(), 2);
    assert_eq!(pipeline.written(), 0);
}

#[test]
fn upload_counts_the_records_it_hands_out() {
    let (pipeline, _) = Pipeline::<Vec<f32>>::start(&"x".repeat(8001));
    let (pipeline, action) = pipeline.step(Event::Cleared(Ok(())));
    match action {
        Some(Action::Embed(chunks)) => {
            assert_eq!(chunks.len(), 2);
            assert_eq!(chunks[0].index, 0);
            assert_eq!(chunks[0].text, "x".repeat(8000));
            assert_eq!(chunks[1].index, 1);
            assert_eq!(chunks[1].text, "x");
        }
        other => panic!("unexpected request: {:?}", other),
    }
    assert!(matches!(pipeline.phase(), Phase::Embedding));
    let (pipeline, action) = pipeline.step(Event::Embedded(vec![Ok(vec![1.0]), Ok(vec![2.0])]));
    match action {
        Some(Action::Store(record)) => {
            assert_eq!(record.id, "chunk_0");
            assert_eq!(record.vector, vec![1.0]);
            assert_eq!(record.text, "x".repeat(8000));
        }
        other => panic!("unexpected request: {:?}", other),
    }
    assert!(matches!(pipeline.phase(), Phase::Storing));
    assert_eq!(pipeline.written(), 1);
    let (pipeline, action) = pipeline.step(Event::Stored(Ok(())));
    match action {
        Some(Action::Store(record)) => {
            assert_eq!(record.id, "chunk_1");
            assert_eq!(record.vector, vec![2.0]);
            assert_eq!(record.text, "x");
        }
        other => panic!("unexpected request: {:?}", other),
    }
    assert_eq!(pipeline.written(), 2);
    let (pipeline, action) = pipeline.step(Event::Stored(Ok(())));
    match action {
        Some(Action::Finish(result)) => {
            assert_eq!(result, Ok("Успешно обработано и загружено 2 чанков".to_string()));
        }
        other => panic!("unexpected request: {:?}", other),
    }
    assert!(matches!(pipeline.phase(), Phase::Finished));
}

#[test]
fn upload_ignores_an_event_that_answers_nothing() {
    let (pipeline, _) = Pipeline::<Vec<f32>>::start("text");
    let (pipeline, action) = pipeline.step(Event::Stored(Ok(())));
    assert!(action.is_none());
    let (pipeline, action) = pipeline.step(Event::Embedded(vec![Ok(vec![1.0])]));
    assert!(action.is_none());
    assert!(matches!(pipeline.phase(), Phase::Clearing));
    let (pipeline, _) = pipeline.step(Event::Cleared(Ok(())));
    let (pipeline, action) = pipeline.step(Event::Cleared(Ok(())));
    assert!(action.is_none());
    let (pipeline, action) = pipeline.step(Event::Stored(Err("no".to_string())));
    assert!(action.is_none());
    assert!(matches!(pipeline.phase(), Phase::Embedding));
    let (pipeline, _) = pipeline.step(Event::Embedded(vec![Ok(vec![1.0])]));
    let (pipeline, action) = pipeline.step(Event::Embedded(vec![Ok(vec![1.0])]));
    assert!(action.is_none());
    assert!(matches!(pipeline.phase(), Phase::Storing));
    assert_eq!(pipeline.written(), 1);
}

#[test]
fn embedding_outcomes_that_are_not_one_per_chunk_are_ignored() {
    let (pipeline, _) = Pipeline::<Vec<f32>>::start(&"x".repeat(8001));
    let (pipeline, _) = pipeline.step(Event::Cleared(Ok(())));
    let (pipeline, action) = pipeline.step(Event::Embedded(vec![Ok(vec![1.0])]));
    assert!(action.is_none());
    let (pipeline, action) = pipeline.step(Event::Embedded(vec![]));
    assert!(action.is_none());
    assert!(matches!(pipeline.phase(), Phase::Embedding));
    let (_, action) = pipeline.step(Event::Embedded(vec![Ok(vec![1.0]), Ok(vec![2.0])]));
    assert!(matches!(action, Some(Action::Store(_))));
}

#[test]
fn finished_upload_ignores_every_event() {
    let (pipeline, _) = Pipeline::<Vec<f32>>::start("");
    let (pipeline, action) = pipeline.step(Event::Cleared(Ok(())));
    assert!(matches!(action, Some(Action::Finish(Ok(_)))));
    let (pipeline, action) = pipeline.step(Event::Cleared(Ok(())));
    assert!(action.is_none());
    let (pipeline, action) = pipeline.step(Event::Stored(Ok(())));
    assert!(action.is_none());
    let (pipeline, action) = pipeline.step(Event::Embedded(vec![]));
    assert!(action.is_none());
    assert!(matches!(pipeline.phase(), Phase::Finished));
}

#[test]
fn summary_reports_the_number_of_chunks() {
    assert_eq!(summary_text(0), "Успешно обработано и загружено 0 чанков");
    assert_eq!(summary_text(1), "Успешно обработано и загружено 1 чанков");
    assert_eq!(summary_text(125), "Успешно обработано и загружено 125 чанков");
}

#[test]
fn extraction_report_ends_with_the_reason() {
    assert_eq!(
        extraction_failure("unsupported format"),
        "Ошибка извлечения текста из PDF: unsupported format"
    );
}

#[test]
fn record_identifiers() {
    assert_eq!(record_id(0), "chunk_0");
    assert_eq!(record_id(1), "chunk_1");
    assert_eq!(record_id(10), "chunk_10");
    assert_eq!(record_id(4096), "chunk_4096");
}

#[test]
fn record_of_a_chunk() {
    let chunk = Chunk { index: 12, text: "test text".to_string() };
    let record = StoredRecord::for_chunk(&chunk, vec![0.1f32, 0.2, 0.3]);
    assert_eq!(record.id, "chunk_12");
    assert_eq!(record.vector, vec![0.1, 0.2, 0.3]);
    assert_eq!(record.text, "test text");
    assert_eq!(TEXT_FIELD, "text");
}

#[test]
fn storage_failures_are_reported_with_their_reason() {
    assert_eq!(
        StorageFailure::Client("bad key".to_string()).message(),
        "Ошибка создания клиента Pinecone: bad key"
    );
    assert_eq!(
        StorageFailure::Connection("no route".to_string()).message(),
        "Ошибка подключения к индексу Pinecone: no route"
    );
    assert_eq!(
        StorageFailure::Write("quota".to_string()).message(),
        "Ошибка сохранения вектора: quota"
    );
    assert_eq!(
        StorageFailure::Clear("denied".to_string()).message(),
        "Ошибка очистки векторов: denied"
    );
}
