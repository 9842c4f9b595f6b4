# PDF prompt injection evaluator

A library that examines PDF documents for hidden instructions aimed at language models
(zero-width and direction-override characters, white or invisible text, instruction phrases
in Portuguese and English, embedded JavaScript, metadata, forms, replacement texts and hidden
layers), judges them, and lays out bilingual reports. Its functions carry contracts that Verus
proves.

- `src/` — the verified library: the PDF object model (`pdf_model`), the heuristic detector and
  the individual detectors, the analysis verdict, report texts and page layouts, and the
  preparation of language-model requests.
- `app/` — the command-line program around it: reading files, loading PDFs with lopdf, HTTP
  calls to the model providers, rendering layouts with genpdf, and the settings file.
- `tests/` — tests run against the compiled library.
