# toypos

Núcleo de un punto de venta multi-sucursal, escrito en Verus: cada función
pública de `src/` lleva su contrato (`requires` / `ensures`) y Verus lo prueba.

- `src/` — la biblioteca verificada: acceso por permiso y alcance, sucursales y
  folios, catálogo y códigos EAN-13, precios, caja y cortes, aprobaciones de
  gastos, inventario por movimientos, etiquetado con caducidad, envíos entre
  sucursales, notificaciones, y las decisiones de la capa de datos
  (`almacen.rs`) junto con la codificación a texto de sus valores
  (`codec.rs`). Las leyes que valen entre varias operaciones están como
  funciones de prueba públicas (`ley_*`).
- Las llamadas a crates externas (uuid, jiff, argon2, sqlx) pasan por funciones
  de confianza pequeñas, cada una con su contrato documentado contra la fuente
  de la crate: `externo.rs`, `texto.rs`, `tiempo.rs`, `usuario.rs` y el tipo de
  error de `almacen.rs`.
- `tests/` — pruebas de ejecución sobre la API pública.
- `app/` — el almacén SQLite asíncrono: lee y escribe filas, ordena las
  transacciones y pide cada decisión a la biblioteca.
