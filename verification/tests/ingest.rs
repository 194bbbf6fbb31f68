use rust_ai_ready_stack::entities::{DocumentChunk, ProcessCategory};
use rust_ai_ready_stack::errors::DomainError;
use rust_ai_ready_stack::ingest::{
    category_filter, chunk_from_row, create_chunks, document_columns, embedding_batch_error,
    embedding_batches, gather_batch, plan_add, prepare_text, read_error, resolve_source_path, AddPlan,
    IngestDocumentUseCase,
};

#[test]
fn chunks_overlap() {
    let text: String = (0..25).map(|i| char::from(b'a' + (i % 26) as u8)).collect();
    let chunks = create_chunks(&text, ProcessCategory::Support, "f.txt", 10, 4);
    let contents: Vec<&str> = chunks.iter().map(|c| c.content.as_str()).collect();
    assert_eq!(contents, vec![&text[0..10], &text[6..16], &text[12..22], &text[18..25]]);
    assert!(chunks.iter().all(|c| c.category == ProcessCategory::Support && c.source_filename == "f.txt"));
}

#[test]
fn short_and_empty_texts() {
    assert_eq!(create_chunks("abc", ProcessCategory::Commercial, "f", 10, 4).len(), 1);
    assert!(create_chunks("", ProcessCategory::Commercial, "f", 10, 4).is_empty());
    let exact = create_chunks("abcdefghij", ProcessCategory::Commercial, "f", 10, 4);
    assert_eq!(exact.len(), 1);
}

#[test]
fn documents_are_chunked_by_a_thousand_characters() {
    let text = "x".repeat(2500);
    let chunks = IngestDocumentUseCase::<(), ()>::chunk_document(&text, "docs/a.md", "Financeiro");
    assert_eq!(chunks.len(), 3);
    assert_eq!(chunks[0].content.len(), 1000);
    assert_eq!(chunks[2].content.len(), 900);
    assert_eq!(chunks[0].category, ProcessCategory::Financial);
    assert_eq!(chunks[0].source_filename, "docs/a.md");
}

#[test]
fn embeddings_are_asked_for_in_batches_of_fifty() {
    let chunks: Vec<DocumentChunk> = (0..120)
        .map(|i| DocumentChunk::new(format!("c{}", i), ProcessCategory::Commercial, "f".to_string()))
        .collect();
    let batches = embedding_batches(&chunks);
    assert_eq!(batches.iter().map(|b| b.len()).collect::<Vec<_>>(), vec![50, 50, 20]);
    assert_eq!(batches[2][0], "c100");
    assert!(embedding_batches(&vec![]).is_empty());
}

#[test]
fn embedding_batch_errors_name_the_batch() {
    let err = embedding_batch_error(1, &DomainError::VectorDbError("Falha ao gerar embeddings".to_string()));
    match err {
        DomainError::VectorDbError(m) => assert_eq!(
            m,
            "Erro ao gerar embeddings no lote 2: Erro no banco de dados vetorial: Falha ao gerar embeddings"
        ),
        _ => panic!("expected a vector store error"),
    }
}

#[test]
fn source_paths() {
    assert_eq!(resolve_source_path("../../etc/notes.txt").ok().unwrap(), "files_rag/notes.txt");
    assert_eq!(resolve_source_path("guide.md").ok().unwrap(), "files_rag/guide.md");
    for bad in ["image.png", "README", ".md", "archive.txt.gz"] {
        match resolve_source_path(bad) {
            Err(DomainError::InvalidData(m)) => assert_eq!(
                m,
                "Arquivo não encontrado ou formato inválido (suportado: .txt, .md)"
            ),
            _ => panic!("expected an unsupported file"),
        }
    }
    match resolve_source_path("dir/..") {
        Err(DomainError::InvalidData(m)) => assert_eq!(m, "Nome de arquivo inválido"),
        _ => panic!("expected an invalid name"),
    }
}

#[test]
fn texts_are_trimmed_and_read_errors_named() {
    assert_eq!(prepare_text("\n  conteúdo \t"), "conteúdo");
    assert!(matches!(read_error("disk"), DomainError::VectorDbError(ref m) if m == "Erro ao ler arquivo: disk"));
}

#[test]
fn plans_for_adding_documents() {
    assert_eq!(plan_add(0, &vec![]), AddPlan::Skip);
    assert_eq!(plan_add(2, &vec![1536]), AddPlan::Skip);
    assert_eq!(plan_add(2, &vec![1536, 10]), AddPlan::WrongDimension);
    assert_eq!(plan_add(2, &vec![1536, 1536]), AddPlan::Write);
}

#[test]
fn rows_of_the_vector_store() {
    let chunks = vec![
        DocumentChunk::new("a".to_string(), ProcessCategory::Renewal, "s1".to_string()),
        DocumentChunk::new("b".to_string(), ProcessCategory::Financial, "s2".to_string()),
    ];
    let columns = document_columns(&chunks);
    assert_eq!(columns.contents, vec!["a".to_string(), "b".to_string()]);
    assert_eq!(columns.categories, vec!["Renovacao".to_string(), "Financeiro".to_string()]);
    assert_eq!(columns.sources, vec!["s1".to_string(), "s2".to_string()]);
    assert_eq!(columns.ids.len(), 2);
    assert_ne!(columns.ids[0], columns.ids[1]);
    assert_eq!(category_filter("Suporte"), "category = 'Suporte'");
    let chunk = chunk_from_row("c", "Desconhecida", "s");
    assert_eq!(chunk.category, ProcessCategory::Commercial);
    assert_eq!(chunk_from_row("c", "Suporte", "s").category, ProcessCategory::Support);
}

#[test]
fn chunks_cover_the_text() {
    let text: String = (0..2345u32)
        .map(|i| char::from_u32(0x61 + (i % 26)).unwrap())
        .map(|c| if c == 'q' { 'ç' } else { c })
        .collect();
    let chunks = create_chunks(&text, ProcessCategory::Renewal, "f.md", 1000, 200);
    let mut stitched = String::new();
    for (i, c) in chunks.iter().enumerate() {
        let n = c.content.chars().count();
        assert!(n <= 1000);
        if i + 1 < chunks.len() {
            assert_eq!(n, 1000);
            stitched.extend(c.content.chars().take(800));
        } else {
            stitched.push_str(&c.content);
        }
    }
    assert_eq!(stitched, text);
}

#[test]
fn batches_cover_the_chunks() {
    let chunks: Vec<DocumentChunk> = (0..101)
        .map(|i| DocumentChunk::new(format!("c{}", i), ProcessCategory::Support, "f".to_string()))
        .collect();
    let flattened: Vec<String> = embedding_batches(&chunks).into_iter().flatten().collect();
    let contents: Vec<String> = chunks.iter().map(|c| c.content.clone()).collect();
    assert_eq!(flattened, contents);
}

#[test]
fn embeddings_are_gathered_batch_by_batch() {
    let mut gathered: Vec<u32> = vec![1, 2];
    assert!(gather_batch(&mut gathered, 0, Ok(vec![3, 4])).is_ok());
    assert_eq!(gathered, vec![1, 2, 3, 4]);
    match gather_batch(&mut gathered, 2, Err(DomainError::VectorDbError("Falha ao gerar embeddings".to_string()))) {
        Err(DomainError::VectorDbError(m)) => assert_eq!(
            m,
            "Erro ao gerar embeddings no lote 3: Erro no banco de dados vetorial: Falha ao gerar embeddings"
        ),
        _ => panic!("expected a vector store error"),
    }
    assert_eq!(gathered, vec![1, 2, 3, 4]);
}
